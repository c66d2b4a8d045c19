//! The decisions of the reconciler. Each function here looks at a resource,
//! and at what the remote service answered where it was asked, and says what
//! is to happen next. None of them reaches outside: the caller makes the
//! remote calls and writes the status.

use vstd::prelude::*;
use vstd::string::StringExecFns;

use crate::atlas::error::{outcome, Error, ErrorView};
use crate::atlas::repository::{RemoteCall, RemoteCallView};
use crate::atlas::user_request::{UserRequest, UserRequestView};
use crate::atlas::user_response::{UserResponse, UserResponseView};
use crate::config::AtlasUserConfig;
use crate::crd::{
    AtlasUser, AtlasUserStatus, AtlasUserStatusView, AtlasUserView, MembershipView,
    UserOrgMembershipStatus,
};
use crate::k8s::{Action, Interval};

verus! {

/// The marker that holds back the deletion of a resource until the remote
/// account has been dealt with.
pub const FINALIZER: &'static str = "atlasusers.moertel.com/finalizer";

/// What is reported of a resource that lies in no namespace.
pub const NOT_NAMESPACED: &'static str =
    "Expected resource to be namespaced. Can't deploy to an unknown namespace.";

/// What is reported of a deletion that finds no account in the status.
pub const NO_USER_ID: &'static str = "Cannot delete user without user_id in status";

/// What is recorded when the remote account has gone without the controller
/// having removed it.
pub const DELETED_EXTERNALLY: &'static str = "User was deleted externally from Atlas";

/// The situation that a resource is in when it is to be applied.
#[derive(Clone, Copy, Debug, PartialEq, Eq, Structural)]
pub enum ReconcileState {
    /// No account is known and the resource is in its first revision: the
    /// account is to be invited.
    New,
    /// An account is known and the resource has changed since it was last
    /// carried out: the account is to be updated.
    Stale,
    /// An account is known and the resource is carried out: the status is to
    /// be brought in line with the remote service.
    Synced,
    /// No account is known although the resource is past its first revision:
    /// the account is to be looked for by its name.
    Orphan,
}

/// A status to write, and what to hand back once it is written.
#[derive(Debug, PartialEq, Eq)]
pub struct StatusUpdate {
    pub status: AtlasUserStatus,
    pub action: Action,
}

/// A status update as contracts see it.
pub struct StatusUpdateView {
    pub status: AtlasUserStatusView,
    pub action: Action,
}

impl View for StatusUpdate {
    type V = StatusUpdateView;

    open spec fn view(&self) -> StatusUpdateView {
        StatusUpdateView { status: self.status@, action: self.action }
    }
}

impl DeepView for StatusUpdate {
    type V = StatusUpdateView;

    open spec fn deep_view(&self) -> StatusUpdateView {
        self@
    }
}

impl StatusUpdateView {
    /// What is handed back after the attempt to write the status: the action
    /// where it was written, the failure where it was not.
    pub open spec fn written(self, write: Result<(), ErrorView>) -> Result<Action, ErrorView> {
        match write {
            Ok(_) => Ok(self.action),
            Err(error) => Err(error),
        }
    }
}

impl StatusUpdate {
    /// Ends a reconcile after the attempt to write the status. `write` says
    /// how the attempt went: a status that could not be written fails the
    /// reconcile.
    pub fn written(self, write: Result<(), Error>) -> (end: Result<Action, Error>)
        ensures
            outcome(end) == self@.written(outcome(write)),
    {
        match write {
            Ok(_) => Ok(self.action),
            Err(error) => Err(error),
        }
    }
}

/// How applying a resource starts: the one call that the situation of the
/// resource asks for.
#[derive(Clone, Copy, Debug, PartialEq, Eq)]
pub enum ApplyPlan<'a> {
    /// The resource is new: its account is to be invited.
    Invite { org_id: &'a str, request: UserRequest<'a> },
    /// The resource has changed: its account is to be updated.
    Update { org_id: &'a str, user_id: &'a str, request: UserRequest<'a> },
    /// The resource is carried out: its account is to be read.
    Sync { org_id: &'a str, user_id: &'a str },
    /// The account of the resource is unknown: it is to be looked for by its
    /// name.
    Recover { org_id: &'a str, username: &'a str },
}

/// A plan as contracts see it.
pub enum ApplyPlanView {
    Invite { org_id: Seq<char>, request: UserRequestView },
    Update { org_id: Seq<char>, user_id: Seq<char>, request: UserRequestView },
    Sync { org_id: Seq<char>, user_id: Seq<char> },
    Recover { org_id: Seq<char>, username: Seq<char> },
}

impl ApplyPlanView {
    /// The situation that the plan answers.
    pub open spec fn state(self) -> ReconcileState {
        match self {
            ApplyPlanView::Invite { .. } => ReconcileState::New,
            ApplyPlanView::Update { .. } => ReconcileState::Stale,
            ApplyPlanView::Sync { .. } => ReconcileState::Synced,
            ApplyPlanView::Recover { .. } => ReconcileState::Orphan,
        }
    }

    /// The call that the plan asks for.
    pub open spec fn call(self) -> RemoteCallView {
        match self {
            ApplyPlanView::Invite { org_id, request } => RemoteCallView::Invite { org_id, request },
            ApplyPlanView::Update { org_id, user_id, request } => RemoteCallView::Update {
                org_id,
                user_id,
                request,
            },
            ApplyPlanView::Sync { org_id, user_id } => RemoteCallView::Get { org_id, user_id },
            ApplyPlanView::Recover { org_id, username } => RemoteCallView::FindByUsername {
                org_id,
                username,
            },
        }
    }
}

impl<'a> View for ApplyPlan<'a> {
    type V = ApplyPlanView;

    open spec fn view(&self) -> ApplyPlanView {
        match *self {
            ApplyPlan::Invite { org_id, request } => ApplyPlanView::Invite {
                org_id: org_id@,
                request: request@,
            },
            ApplyPlan::Update { org_id, user_id, request } => ApplyPlanView::Update {
                org_id: org_id@,
                user_id: user_id@,
                request: request@,
            },
            ApplyPlan::Sync { org_id, user_id } => ApplyPlanView::Sync {
                org_id: org_id@,
                user_id: user_id@,
            },
            ApplyPlan::Recover { org_id, username } => ApplyPlanView::Recover {
                org_id: org_id@,
                username: username@,
            },
        }
    }
}

impl<'a> DeepView for ApplyPlan<'a> {
    type V = ApplyPlanView;

    open spec fn deep_view(&self) -> ApplyPlanView {
        self@
    }
}

impl<'a> ApplyPlan<'a> {
    /// The situation that the plan answers.
    pub fn state(&self) -> (state: ReconcileState)
        ensures
            state == self@.state(),
    {
        match self {
            ApplyPlan::Invite { .. } => ReconcileState::New,
            ApplyPlan::Update { .. } => ReconcileState::Stale,
            ApplyPlan::Sync { .. } => ReconcileState::Synced,
            ApplyPlan::Recover { .. } => ReconcileState::Orphan,
        }
    }

    /// The call that the plan asks for.
    pub fn call(&self) -> (call: RemoteCall<'a>)
        ensures
            call@ == self@.call(),
    {
        match *self {
            ApplyPlan::Invite { org_id, request } => RemoteCall::Invite { org_id, request },
            ApplyPlan::Update { org_id, user_id, request } => RemoteCall::Update {
                org_id,
                user_id,
                request,
            },
            ApplyPlan::Sync { org_id, user_id } => RemoteCall::Get { org_id, user_id },
            ApplyPlan::Recover { org_id, username } => RemoteCall::FindByUsername {
                org_id,
                username,
            },
        }
    }
}

/// What follows the search for the account of an orphan.
#[derive(Debug, PartialEq, Eq)]
pub enum Recovery<'a> {
    /// The account was found: it is taken over with this status.
    Adopt(StatusUpdate),
    /// There is no such account: it is to be invited.
    Invite { org_id: &'a str, request: UserRequest<'a> },
}

/// What follows a search as contracts see it.
pub enum RecoveryView {
    Adopt(StatusUpdateView),
    Invite { org_id: Seq<char>, request: UserRequestView },
}

impl<'a> View for Recovery<'a> {
    type V = RecoveryView;

    open spec fn view(&self) -> RecoveryView {
        match *self {
            Recovery::Adopt(update) => RecoveryView::Adopt(update@),
            Recovery::Invite { org_id, request } => RecoveryView::Invite {
                org_id: org_id@,
                request: request@,
            },
        }
    }
}

impl<'a> DeepView for Recovery<'a> {
    type V = RecoveryView;

    open spec fn deep_view(&self) -> RecoveryView {
        self@
    }
}

/// How cleaning up after a resource starts.
#[derive(Clone, Copy, Debug, PartialEq, Eq)]
pub enum Cleanup<'a> {
    /// The remote account is left alone; this action is handed back.
    Skip(Action),
    /// The remote account is to be deleted.
    Delete { org_id: &'a str, user_id: &'a str },
}

/// The start of a clean-up as contracts see it.
pub enum CleanupView {
    Skip(Action),
    Delete { org_id: Seq<char>, user_id: Seq<char> },
}

impl<'a> View for Cleanup<'a> {
    type V = CleanupView;

    open spec fn view(&self) -> CleanupView {
        match *self {
            Cleanup::Skip(action) => CleanupView::Skip(action),
            Cleanup::Delete { org_id, user_id } => CleanupView::Delete {
                org_id: org_id@,
                user_id: user_id@,
            },
        }
    }
}

impl<'a> DeepView for Cleanup<'a> {
    type V = CleanupView;

    open spec fn deep_view(&self) -> CleanupView {
        self@
    }
}

impl AtlasUserView {
    /// The revision of the resource; one that carries none counts as the
    /// first.
    pub open spec fn current_generation(self) -> i64 {
        match self.metadata.generation {
            Some(generation) => generation,
            None => 1,
        }
    }

    /// The revision that the status says was carried out last; none counts
    /// as zero.
    pub open spec fn observed_generation(self) -> i64 {
        match self.status {
            Some(status) => match status.observed_generation {
                Some(observed) => observed,
                None => 0,
            },
            None => 0,
        }
    }

    /// Whether the resource has changed since it was last carried out.
    pub open spec fn needs_update(self) -> bool {
        let current = match self.metadata.generation {
            Some(generation) => generation,
            None => 0,
        };
        current > self.observed_generation()
    }

    /// The situation that the resource is in.
    pub open spec fn state(self) -> ReconcileState {
        if self.user_id() is Some {
            if self.needs_update() {
                ReconcileState::Stale
            } else {
                ReconcileState::Synced
            }
        } else if self.current_generation() == 1 {
            ReconcileState::New
        } else {
            ReconcileState::Orphan
        }
    }

    /// What stands in the way of reconciling the resource at all: that it has
    /// no name, or that it lies in no namespace.
    pub open spec fn identity_error(self) -> Option<ErrorView> {
        if self.metadata.name is None {
            Some(ErrorView::UnnamedObject)
        } else if self.metadata.namespace is None {
            Some(ErrorView::UserInput(NOT_NAMESPACED@))
        } else {
            None
        }
    }

    /// The plan that the situation of the resource asks for.
    pub open spec fn plan(self) -> ApplyPlanView {
        match self.state() {
            ReconcileState::New => ApplyPlanView::Invite {
                org_id: self.spec.org_id,
                request: UserRequestView::for_invite(self.spec),
            },
            ReconcileState::Stale => ApplyPlanView::Update {
                org_id: self.spec.org_id,
                user_id: self.user_id()->0,
                request: UserRequestView::for_update(self.spec),
            },
            ReconcileState::Synced => ApplyPlanView::Sync {
                org_id: self.spec.org_id,
                user_id: self.user_id()->0,
            },
            ReconcileState::Orphan => ApplyPlanView::Recover {
                org_id: self.spec.org_id,
                username: self.spec.username,
            },
        }
    }

    /// How applying the resource starts: with the plan for its situation,
    /// unless the resource cannot be reconciled at all.
    pub open spec fn apply_plan(self) -> Result<ApplyPlanView, ErrorView> {
        match self.identity_error() {
            Some(error) => Err(error),
            None => Ok(self.plan()),
        }
    }

    /// The status of the resource once `account` is known to be its account.
    pub open spec fn status_with_account(self, account: UserResponseView) -> AtlasUserStatusView {
        AtlasUserStatusView {
            user_id: Some(account.id),
            membership_status: Some(account.org_membership_status),
            error: None,
            ..self.status_or_empty()
        }.observing(self.metadata.generation)
    }

    /// The status of the resource once its account is known to stand as
    /// `membership` says.
    pub open spec fn status_with_membership(self, membership: MembershipView) -> AtlasUserStatusView {
        AtlasUserStatusView {
            membership_status: Some(membership),
            error: None,
            ..self.status_or_empty()
        }.observing(self.metadata.generation)
    }

    /// The status of the resource once its account is known to be gone from
    /// the remote service.
    pub open spec fn status_after_drift(self) -> AtlasUserStatusView {
        AtlasUserStatusView {
            error: Some(DELETED_EXTERNALLY@),
            ..AtlasUserStatusView::empty()
        }.observing(self.metadata.generation)
    }

    /// What follows the answer to an invitation.
    pub open spec fn invited(
        self,
        reply: Result<UserResponseView, ErrorView>,
        requeue: Interval,
    ) -> Result<StatusUpdateView, ErrorView> {
        match self.identity_error() {
            Some(error) => Err(error),
            None => match reply {
                Err(error) => Err(error),
                Ok(account) => Ok(
                    StatusUpdateView {
                        status: self.status_with_account(account),
                        action: Action::Requeue(requeue),
                    },
                ),
            },
        }
    }

    /// What follows the answer to an update.
    pub open spec fn updated(
        self,
        reply: Result<UserResponseView, ErrorView>,
        requeue: Interval,
    ) -> Result<StatusUpdateView, ErrorView> {
        match self.identity_error() {
            Some(error) => Err(error),
            None => match reply {
                Err(error) => Err(error),
                Ok(account) => Ok(
                    StatusUpdateView {
                        status: self.status_with_membership(account.org_membership_status),
                        action: Action::Requeue(requeue),
                    },
                ),
            },
        }
    }

    /// What follows the answer to reading the account.
    pub open spec fn synced(
        self,
        reply: Result<UserResponseView, ErrorView>,
        requeue: Interval,
    ) -> Result<StatusUpdateView, ErrorView> {
        match self.identity_error() {
            Some(error) => Err(error),
            None => match reply {
                Ok(account) => Ok(
                    StatusUpdateView {
                        status: self.status_with_membership(account.org_membership_status),
                        action: Action::Requeue(requeue),
                    },
                ),
                Err(error) => if error.is_not_found() {
                    Ok(
                        StatusUpdateView {
                            status: self.status_after_drift(),
                            action: Action::Requeue(requeue),
                        },
                    )
                } else {
                    Err(error)
                },
            },
        }
    }

    /// What follows the search for the account of an orphan.
    pub open spec fn recovered(
        self,
        found: Result<Option<UserResponseView>, ErrorView>,
    ) -> Result<RecoveryView, ErrorView> {
        match self.identity_error() {
            Some(error) => Err(error),
            None => match found {
                Err(error) => Err(error),
                Ok(Some(account)) => Ok(
                    RecoveryView::Adopt(
                        StatusUpdateView {
                            status: self.status_with_account(account),
                            action: Action::Requeue(Interval { secs: 1, nanos: 0 }),
                        },
                    ),
                ),
                Ok(None) => Ok(
                    RecoveryView::Invite {
                        org_id: self.spec.org_id,
                        request: UserRequestView::for_invite(self.spec),
                    },
                ),
            },
        }
    }

    /// How cleaning up after the resource starts.
    pub open spec fn cleanup_plan(self, safe_to_delete: bool) -> Result<CleanupView, ErrorView> {
        match self.identity_error() {
            Some(error) => Err(error),
            None => if !safe_to_delete {
                Ok(CleanupView::Skip(Action::AwaitChange))
            } else {
                match self.user_id() {
                    Some(user_id) => Ok(
                        CleanupView::Delete { org_id: self.spec.org_id, user_id },
                    ),
                    None => Err(ErrorView::UserInput(NO_USER_ID@)),
                }
            },
        }
    }

    /// What follows the answer to deleting the account.
    pub open spec fn deleted(self, reply: Result<(), ErrorView>) -> Result<
        StatusUpdateView,
        ErrorView,
    > {
        match self.identity_error() {
            Some(error) => Err(error),
            None => match reply {
                Err(error) => Err(error),
                Ok(_) => Ok(
                    StatusUpdateView {
                        status: self.status_with_membership(MembershipView::Deleted),
                        action: Action::AwaitChange,
                    },
                ),
            },
        }
    }
}

impl AtlasUser {
    /// The name of the resource. A resource without a name cannot be
    /// reconciled.
    pub fn try_name(&self) -> (name: Result<&str, Error>)
        ensures
            match name {
                Ok(text) => self@.metadata.name == Some(text@),
                Err(error) => self@.metadata.name is None && error@ == ErrorView::UnnamedObject,
            },
    {
        match &self.metadata.name {
            Some(name) => Ok(name.as_str()),
            None => Err(Error::UnnamedObject),
        }
    }

    /// The namespace of the resource. A resource that lies in none cannot be
    /// reconciled: its owner has to put it in one.
    pub fn try_namespace(&self) -> (namespace: Result<&str, Error>)
        ensures
            match namespace {
                Ok(text) => self@.metadata.namespace == Some(text@),
                Err(error) => self@.metadata.namespace is None && error@ == ErrorView::UserInput(
                    NOT_NAMESPACED@,
                ),
            },
    {
        match &self.metadata.namespace {
            Some(namespace) => Ok(namespace.as_str()),
            None => Err(Error::UserInput(String::from_str(NOT_NAMESPACED))),
        }
    }

    /// What stands in the way of reconciling the resource at all: first that
    /// it has no name, then that it lies in no namespace.
    pub fn identity_error(&self) -> (error: Option<Error>)
        ensures
            error.deep_view() == self@.identity_error(),
    {
        match self.try_name() {
            Err(error) => Some(error),
            Ok(_) => match self.try_namespace() {
                Err(error) => Some(error),
                Ok(_) => None,
            },
        }
    }
}

/// The reconciler of user accounts, with the settings that it works under.
#[derive(Clone, Copy, Debug, PartialEq, Eq)]
pub struct AtlasUserContext {
    pub config: AtlasUserConfig,
}

impl AtlasUserContext {
    /// A reconciler that works under `config`.
    pub fn new(config: AtlasUserConfig) -> (context: Self)
        ensures
            context.config == config,
    {
        AtlasUserContext { config }
    }

    /// The finalizer that this reconciler guards deletions with.
    pub fn finalizer(&self) -> (name: &'static str)
        ensures
            name@ == FINALIZER@,
    {
        FINALIZER
    }

    /// Whether the resource has changed since it was last carried out: whether
    /// its revision is past the one that the status records. A revision that
    /// is missing on either side counts as zero.
    pub fn needs_update(&self, atlas_user: &AtlasUser) -> (stale: bool)
        ensures
            stale == atlas_user@.needs_update(),
    {
        let current_gen: i64 = match atlas_user.metadata.generation {
            Some(generation) => generation,
            None => 0,
        };
        let observed_gen: i64 = match &atlas_user.status {
            Some(status) => match status.observed_generation {
                Some(observed) => observed,
                None => 0,
            },
            None => 0,
        };
        current_gen > observed_gen
    }

    /// The situation that the resource is in: whether an account is known for
    /// it, and whether the resource is new, changed or unchanged.
    pub fn state(&self, atlas_user: &AtlasUser) -> (state: ReconcileState)
        ensures
            state == atlas_user@.state(),
    {
        let current_gen: i64 = match atlas_user.metadata.generation {
            Some(generation) => generation,
            None => 1,
        };
        match atlas_user.user_id() {
            Some(_) => if self.needs_update(atlas_user) {
                ReconcileState::Stale
            } else {
                ReconcileState::Synced
            },
            None => if current_gen == 1 {
                ReconcileState::New
            } else {
                ReconcileState::Orphan
            },
        }
    }

    /// Starts applying a resource. A resource without a name or a namespace
    /// is refused. Every other resource is answered with the one call that its
    /// situation asks for: an invitation where it is new, an update where it
    /// has changed, a reading of the account where it has not, a search by
    /// name where the account is unknown though the resource is not new. The
    /// answer to the call goes to `invite_user`, `update_user`, `sync_status`
    /// or `recover_user`.
    pub fn handle_apply<'a>(&self, atlas_user: &'a AtlasUser) -> (plan: Result<
        ApplyPlan<'a>,
        Error,
    >)
        ensures
            outcome(plan) == atlas_user@.apply_plan(),
    {
        match atlas_user.identity_error() {
            Some(error) => { return Err(error); },
            None => {},
        }
        let spec = &atlas_user.spec;
        let org_id = spec.org_id.as_str();
        match (atlas_user.user_id(), self.state(atlas_user)) {
            (Some(user_id), ReconcileState::Stale) => Ok(
                ApplyPlan::Update { org_id, user_id, request: UserRequest::for_update(spec) },
            ),
            (Some(user_id), _) => Ok(ApplyPlan::Sync { org_id, user_id }),
            (None, ReconcileState::New) => Ok(
                ApplyPlan::Invite { org_id, request: UserRequest::for_invite(spec) },
            ),
            (None, _) => Ok(ApplyPlan::Recover { org_id, username: spec.username.as_str() }),
        }
    }

    /// Takes the answer to an invitation. A failure is handed on and nothing
    /// is written. An account is recorded: its identifier and its standing go
    /// into the status, the last failure is cleared, and the revision of the
    /// resource becomes the one carried out. The resource is looked at again
    /// after the configured interval.
    pub fn invite_user(&self, atlas_user: &AtlasUser, reply: Result<UserResponse, Error>) -> (next:
        Result<StatusUpdate, Error>)
        ensures
            outcome(next) == atlas_user@.invited(outcome(reply), self.config.requeue_duration),
    {
        match atlas_user.identity_error() {
            Some(error) => { return Err(error); },
            None => {},
        }
        match reply {
            Err(error) => Err(error),
            Ok(response) => Ok(
                StatusUpdate {
                    status: status_with_account(atlas_user, response),
                    action: Action::requeue(self.config.requeue_duration),
                },
            ),
        }
    }

    /// Takes the answer to an update. A failure is handed on and nothing is
    /// written. Otherwise the standing of the account goes into the status,
    /// the last failure is cleared, and the revision of the resource becomes
    /// the one carried out. The resource is looked at again after the
    /// configured interval.
    pub fn update_user(&self, atlas_user: &AtlasUser, reply: Result<UserResponse, Error>) -> (next:
        Result<StatusUpdate, Error>)
        ensures
            outcome(next) == atlas_user@.updated(outcome(reply), self.config.requeue_duration),
    {
        match atlas_user.identity_error() {
            Some(error) => { return Err(error); },
            None => {},
        }
        match reply {
            Err(error) => Err(error),
            Ok(response) => Ok(
                StatusUpdate {
                    status: status_with_membership(atlas_user, response.org_membership_status),
                    action: Action::requeue(self.config.requeue_duration),
                },
            ),
        }
    }

    /// Takes the answer to reading the account. Where the account was read,
    /// its standing goes into the status and the last failure is cleared.
    /// Where the remote service does not know the account, somebody else has
    /// removed it: the status forgets the account and its standing and
    /// records what happened, and no new invitation is made. Either way the
    /// resource is looked at again after the configured interval. Any other
    /// failure is handed on and nothing is written.
    pub fn sync_status(&self, atlas_user: &AtlasUser, reply: Result<UserResponse, Error>) -> (next:
        Result<StatusUpdate, Error>)
        ensures
            outcome(next) == atlas_user@.synced(outcome(reply), self.config.requeue_duration),
    {
        match atlas_user.identity_error() {
            Some(error) => { return Err(error); },
            None => {},
        }
        match reply {
            Ok(response) => Ok(
                StatusUpdate {
                    status: status_with_membership(atlas_user, response.org_membership_status),
                    action: Action::requeue(self.config.requeue_duration),
                },
            ),
            Err(Error::AtlasUserNotFound { .. }) => {
                let mut status = AtlasUserStatus::default();
                status.error = Some(String::from_str(DELETED_EXTERNALLY));
                status.with_observed_gen(&atlas_user.metadata);
                Ok(StatusUpdate { status, action: Action::requeue(self.config.requeue_duration) })
            },
            Err(error) => Err(error),
        }
    }

    /// Takes the result of the search for the account of an orphan. A failure
    /// is handed on. An account that was found is taken over as an invited one
    /// would be, without an invitation, and the resource is looked at again
    /// after one second. Where there is no such account it is to be invited.
    pub fn recover_user<'a>(
        &self,
        atlas_user: &'a AtlasUser,
        found: Result<Option<UserResponse>, Error>,
    ) -> (next: Result<Recovery<'a>, Error>)
        ensures
            outcome(next) == atlas_user@.recovered(outcome(found)),
    {
        match atlas_user.identity_error() {
            Some(error) => { return Err(error); },
            None => {},
        }
        match found {
            Err(error) => Err(error),
            Ok(Some(response)) => Ok(
                Recovery::Adopt(
                    StatusUpdate {
                        status: status_with_account(atlas_user, response),
                        action: Action::requeue(Interval::from_secs(1)),
                    },
                ),
            ),
            Ok(None) => Ok(
                Recovery::Invite {
                    org_id: atlas_user.spec.org_id.as_str(),
                    request: UserRequest::for_invite(&atlas_user.spec),
                },
            ),
        }
    }

    /// Starts cleaning up after a resource that is being deleted. A resource
    /// without a name or a namespace is refused. While remote accounts are
    /// not to be deleted nothing is asked of the remote service and the
    /// resource is left until it changes. Otherwise the account that the
    /// status names is to be deleted; a status that names none is the owner's
    /// to repair. The answer to the deletion goes to `delete_user`.
    pub fn handle_cleanup<'a>(&self, atlas_user: &'a AtlasUser) -> (plan: Result<
        Cleanup<'a>,
        Error,
    >)
        ensures
            outcome(plan) == atlas_user@.cleanup_plan(self.config.safe_to_delete),
    {
        match atlas_user.identity_error() {
            Some(error) => { return Err(error); },
            None => {},
        }
        if !self.config.safe_to_delete {
            return Ok(Cleanup::Skip(Action::await_change()));
        }
        match atlas_user.user_id() {
            Some(user_id) => Ok(
                Cleanup::Delete { org_id: atlas_user.spec.org_id.as_str(), user_id },
            ),
            None => Err(Error::UserInput(String::from_str(NO_USER_ID))),
        }
    }

    /// Takes the answer to deleting the account. A failure is handed on and
    /// nothing is written. Otherwise the status records that the account is
    /// deleted and clears the last failure, and the resource is left until it
    /// changes.
    pub fn delete_user(&self, atlas_user: &AtlasUser, reply: Result<(), Error>) -> (next: Result<
        StatusUpdate,
        Error,
    >)
        ensures
            outcome(next) == atlas_user@.deleted(outcome(reply)),
    {
        match atlas_user.identity_error() {
            Some(error) => { return Err(error); },
            None => {},
        }
        match reply {
            Err(error) => Err(error),
            Ok(_) => Ok(
                StatusUpdate {
                    status: status_with_membership(atlas_user, UserOrgMembershipStatus::Deleted),
                    action: Action::await_change(),
                },
            ),
        }
    }
}

/// The status of the resource once `account` is known to be its account.
fn status_with_account(atlas_user: &AtlasUser, account: UserResponse) -> (status: AtlasUserStatus)
    ensures
        status@ == atlas_user@.status_with_account(account@),
{
    let mut status = atlas_user.status_or_default();
    status.user_id = Some(account.id);
    status.membership_status = Some(account.org_membership_status);
    status.error = None;
    status.with_observed_gen(&atlas_user.metadata);
    status
}

/// The status of the resource once its account is known to stand as
/// `membership` says.
fn status_with_membership(atlas_user: &AtlasUser, membership: UserOrgMembershipStatus) -> (status:
    AtlasUserStatus)
    ensures
        status@ == atlas_user@.status_with_membership(membership@),
{
    let mut status = atlas_user.status_or_default();
    status.membership_status = Some(membership);
    status.error = None;
    status.with_observed_gen(&atlas_user.metadata);
    status
}

} // verus!
