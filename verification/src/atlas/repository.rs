//! The calls that the controller makes to the remote service: where each one
//! goes, and what the status of the response means for it.

use vstd::prelude::*;
use vstd::string::StringExecFns;

use crate::atlas::error::{Error, ErrorView, StatusCode};
use crate::atlas::user_request::{UserRequest, UserRequestView};
use crate::atlas::user_response::{UserResponse, UserResponseView};

verus! {

/// The media type that the remote service is asked to answer in.
pub const ATLAS_API_CONTENT_TYPE_2025_02_19: &'static str = "application/vnd.atlas.2025-02-19+json";

/// Where the remote service is reached.
pub const ATLAS_API_V2_BASE_URL: &'static str = "https://cloud.mongodb.com/api/atlas/v2";

/// One call to the remote service. It borrows from the resource that it is
/// made for.
#[derive(Clone, Copy, Debug, PartialEq, Eq)]
pub enum RemoteCall<'a> {
    /// Create an account in the organization.
    Invite { org_id: &'a str, request: UserRequest<'a> },
    /// Change the roles and teams of an account.
    Update { org_id: &'a str, user_id: &'a str, request: UserRequest<'a> },
    /// Read an account.
    Get { org_id: &'a str, user_id: &'a str },
    /// Remove an account from the organization.
    Delete { org_id: &'a str, user_id: &'a str },
    /// Read the accounts of the organization and pick the one called
    /// `username`.
    FindByUsername { org_id: &'a str, username: &'a str },
}

/// A call as contracts see it.
pub enum RemoteCallView {
    Invite { org_id: Seq<char>, request: UserRequestView },
    Update { org_id: Seq<char>, user_id: Seq<char>, request: UserRequestView },
    Get { org_id: Seq<char>, user_id: Seq<char> },
    Delete { org_id: Seq<char>, user_id: Seq<char> },
    FindByUsername { org_id: Seq<char>, username: Seq<char> },
}

impl<'a> View for RemoteCall<'a> {
    type V = RemoteCallView;

    open spec fn view(&self) -> RemoteCallView {
        match *self {
            RemoteCall::Invite { org_id, request } => RemoteCallView::Invite {
                org_id: org_id@,
                request: request@,
            },
            RemoteCall::Update { org_id, user_id, request } => RemoteCallView::Update {
                org_id: org_id@,
                user_id: user_id@,
                request: request@,
            },
            RemoteCall::Get { org_id, user_id } => RemoteCallView::Get {
                org_id: org_id@,
                user_id: user_id@,
            },
            RemoteCall::Delete { org_id, user_id } => RemoteCallView::Delete {
                org_id: org_id@,
                user_id: user_id@,
            },
            RemoteCall::FindByUsername { org_id, username } => RemoteCallView::FindByUsername {
                org_id: org_id@,
                username: username@,
            },
        }
    }
}

impl<'a> DeepView for RemoteCall<'a> {
    type V = RemoteCallView;

    open spec fn deep_view(&self) -> RemoteCallView {
        self@
    }
}

/// The method of an HTTP request.
#[derive(Clone, Copy, Debug, PartialEq, Eq, Structural)]
pub enum Method {
    Get,
    Post,
    Patch,
    Delete,
}

/// What a response means for the call that it answers.
#[derive(Clone, Copy, Debug, PartialEq, Eq, Structural)]
pub enum Disposition {
    /// The call went through; the body holds what it asked for.
    Body,
    /// The call went through; there is nothing to read.
    Empty,
    /// The account that the call names does not exist.
    NotFound,
    /// The remote service turned the call down; the body says why.
    Rejected,
}

impl RemoteCallView {
    /// The address of the accounts of an organization.
    pub open spec fn users_url(org_id: Seq<char>) -> Seq<char> {
        ATLAS_API_V2_BASE_URL@ + "/orgs/"@ + org_id + "/users"@
    }

    /// The address of one account of an organization.
    pub open spec fn user_url(org_id: Seq<char>, user_id: Seq<char>) -> Seq<char> {
        Self::users_url(org_id) + "/"@ + user_id
    }

    /// The method that the call is sent with.
    pub open spec fn method(self) -> Method {
        match self {
            RemoteCallView::Invite { .. } => Method::Post,
            RemoteCallView::Update { .. } => Method::Patch,
            RemoteCallView::Get { .. } => Method::Get,
            RemoteCallView::Delete { .. } => Method::Delete,
            RemoteCallView::FindByUsername { .. } => Method::Get,
        }
    }

    /// The address that the call is sent to.
    pub open spec fn url(self) -> Seq<char> {
        match self {
            RemoteCallView::Invite { org_id, .. } => Self::users_url(org_id),
            RemoteCallView::Update { org_id, user_id, .. } => Self::user_url(org_id, user_id),
            RemoteCallView::Get { org_id, user_id } => Self::user_url(org_id, user_id),
            RemoteCallView::Delete { org_id, user_id } => Self::user_url(org_id, user_id),
            RemoteCallView::FindByUsername { org_id, .. } => Self::users_url(org_id),
        }
    }

    /// The body that the call is sent with, if it has one.
    pub open spec fn body(self) -> Option<UserRequestView> {
        match self {
            RemoteCallView::Invite { request, .. } => Some(request),
            RemoteCallView::Update { request, .. } => Some(request),
            _ => None,
        }
    }

    /// What a response with the status `status` means for the call.
    pub open spec fn disposition(self, status: u16) -> Disposition {
        match self {
            RemoteCallView::Invite { .. } => if status == 200 || status == 201 {
                Disposition::Body
            } else {
                Disposition::Rejected
            },
            RemoteCallView::Update { .. } => if status == 200 {
                Disposition::Body
            } else {
                Disposition::Rejected
            },
            RemoteCallView::Get { .. } => if status == 200 {
                Disposition::Body
            } else if status == 404 {
                Disposition::NotFound
            } else {
                Disposition::Rejected
            },
            RemoteCallView::Delete { .. } => if status == 200 || status == 204 {
                Disposition::Empty
            } else {
                Disposition::Rejected
            },
            RemoteCallView::FindByUsername { .. } => if status == 200 {
                Disposition::Body
            } else {
                Disposition::Rejected
            },
        }
    }
}

/// Whether the account at `index` is called `username` and none before it is.
pub open spec fn is_first_match(
    users: Seq<UserResponseView>,
    username: Seq<char>,
    index: int,
) -> bool {
    &&& 0 <= index < users.len()
    &&& users[index].username == username
    &&& forall|earlier: int| 0 <= earlier < index ==> users[earlier].username != username
}

/// The first of `users` that is called `username`, if one of them is.
pub open spec fn first_match(users: Seq<UserResponseView>, username: Seq<char>) -> Option<
    UserResponseView,
> {
    if exists|index: int| is_first_match(users, username, index) {
        Some(users[choose|index: int| is_first_match(users, username, index)])
    } else {
        None
    }
}

/// The first match is called as was asked, and there is one exactly when some
/// account is called so.
pub proof fn first_match_is_a_match(users: Seq<UserResponseView>, username: Seq<char>)
    ensures
        first_match(users, username) is Some <==> exists|index: int|
            0 <= index < users.len() && users[index].username == username,
        first_match(users, username) matches Some(found) ==> found.username == username
            && users.contains(found),
{
    if exists|index: int| 0 <= index < users.len() && users[index].username == username {
        let some = choose|index: int| 0 <= index < users.len() && users[index].username == username;
        least_match(users, username, some);
    }
}

/// Below every match there is a first one.
proof fn least_match(users: Seq<UserResponseView>, username: Seq<char>, index: int)
    requires
        0 <= index < users.len(),
        users[index].username == username,
    ensures
        exists|first: int| is_first_match(users, username, first),
    decreases index,
{
    if exists|earlier: int| 0 <= earlier < index && users[earlier].username == username {
        let earlier = choose|earlier: int|
            0 <= earlier < index && users[earlier].username == username;
        least_match(users, username, earlier);
    } else {
        assert(is_first_match(users, username, index));
    }
}

/// The remote service as the controller sees it: the requests that its
/// calls are, and the reading of what comes back.
pub struct AtlasUserRepository {}

impl AtlasUserRepository {
    /// The address of the accounts of the organization `org_id`.
    pub fn users_url(org_id: &str) -> (url: String)
        ensures
            url@ == RemoteCallView::users_url(org_id@),
    {
        let mut url = String::from_str(ATLAS_API_V2_BASE_URL);
        url.append("/orgs/");
        url.append(org_id);
        url.append("/users");
        url
    }

    /// The address of the account `user_id` of the organization `org_id`.
    pub fn user_url(org_id: &str, user_id: &str) -> (url: String)
        ensures
            url@ == RemoteCallView::user_url(org_id@, user_id@),
    {
        let mut url = Self::users_url(org_id);
        url.append("/");
        url.append(user_id);
        url
    }

    /// The method that `call` is sent with.
    pub fn method(call: &RemoteCall) -> (method: Method)
        ensures
            method == call@.method(),
    {
        match call {
            RemoteCall::Invite { .. } => Method::Post,
            RemoteCall::Update { .. } => Method::Patch,
            RemoteCall::Get { .. } => Method::Get,
            RemoteCall::Delete { .. } => Method::Delete,
            RemoteCall::FindByUsername { .. } => Method::Get,
        }
    }

    /// The address that `call` is sent to.
    pub fn url(call: &RemoteCall) -> (url: String)
        ensures
            url@ == call@.url(),
    {
        match call {
            RemoteCall::Invite { org_id, .. } => Self::users_url(org_id),
            RemoteCall::Update { org_id, user_id, .. } => Self::user_url(org_id, user_id),
            RemoteCall::Get { org_id, user_id } => Self::user_url(org_id, user_id),
            RemoteCall::Delete { org_id, user_id } => Self::user_url(org_id, user_id),
            RemoteCall::FindByUsername { org_id, .. } => Self::users_url(org_id),
        }
    }

    /// The body that `call` is sent with, if it has one.
    pub fn body<'a>(call: &RemoteCall<'a>) -> (body: Option<UserRequest<'a>>)
        ensures
            body.deep_view() == call@.body(),
    {
        match call {
            RemoteCall::Invite { request, .. } => Some(*request),
            RemoteCall::Update { request, .. } => Some(*request),
            _ => None,
        }
    }

    /// What a response with the status `status` means for `call`. An
    /// invitation goes through with 200 or 201, a deletion with 200 or 204,
    /// every other call with 200. Only for reading one account does 404 mean
    /// that the account is not there; wherever else a call did not go
    /// through it was turned down.
    pub fn disposition(call: &RemoteCall, status: StatusCode) -> (disposition: Disposition)
        ensures
            disposition == call@.disposition(status@),
    {
        let code: u16 = status.as_u16();
        match call {
            RemoteCall::Invite { .. } => if code == 200 || code == 201 {
                Disposition::Body
            } else {
                Disposition::Rejected
            },
            RemoteCall::Update { .. } => if code == 200 {
                Disposition::Body
            } else {
                Disposition::Rejected
            },
            RemoteCall::Get { .. } => if code == 200 {
                Disposition::Body
            } else if code == 404 {
                Disposition::NotFound
            } else {
                Disposition::Rejected
            },
            RemoteCall::Delete { .. } => if code == 200 || code == 204 {
                Disposition::Empty
            } else {
                Disposition::Rejected
            },
            RemoteCall::FindByUsername { .. } => if code == 200 {
                Disposition::Body
            } else {
                Disposition::Rejected
            },
        }
    }

    /// The failure that reading the account `user_id` ends in when the remote
    /// service does not know it.
    pub fn not_found(org_id: &str, user_id: &str) -> (error: Error)
        ensures
            error@ == (ErrorView::AtlasUserNotFound { user_id: user_id@, org_id: org_id@ }),
    {
        Error::AtlasUserNotFound { user_id: user_id.to_owned(), org_id: org_id.to_owned() }
    }

    /// The first of `users` that is called `username`, if one of them is.
    /// The remote service lists the accounts of an organization; the choice
    /// among them is made here.
    pub fn find_atlas_user_by_username(users: Vec<UserResponse>, username: &str) -> (found: Option<
        UserResponse,
    >)
        ensures
            found.deep_view() == first_match(users.deep_view(), username@),
    {
        let ghost listed = users.deep_view();
        let mut accounts = users;
        let wanted: String = username.to_owned();
        let mut index: usize = 0;
        while index < accounts.len()
            invariant
                index <= accounts.len(),
                wanted@ == username@,
                listed == users.deep_view(),
                accounts.deep_view() == listed,
                listed.len() == accounts.len(),
                forall|earlier: int| 0 <= earlier < index ==> listed[earlier].username != username@,
            decreases accounts.len() - index,
        {
            if accounts[index].username == wanted {
                proof {
                    assert(is_first_match(listed, username@, index as int));
                }
                let found = accounts.remove(index);
                return Some(found);
            }
            index += 1;
        }
        proof {
            assert forall|index: int| !is_first_match(listed, username@, index) by {}
        }
        None
    }
}

/// The failure that a call ends in when the remote service turns it down.
pub fn handle_error(status: StatusCode, message: String) -> (error: Error)
    ensures
        error@ == (ErrorView::Api { status: status@, message: message@ }),
{
    Error::Api { status, message }
}

} // verus!
