//! What is sent to the remote service to invite or to change an account.

use vstd::prelude::*;

use crate::crd::{AtlasUserRoles, AtlasUserSpec, AtlasUserSpecView, RoleView};

verus! {

/// The body of a request that invites or updates an account. It borrows from
/// the desired state that it was made of.
#[derive(Clone, Copy, Debug, PartialEq, Eq)]
pub struct UserRequest<'a> {
    /// The name of the account. An invitation carries it; an update, which
    /// cannot change it, does not.
    pub username: Option<&'a str>,
    pub roles: &'a AtlasUserRoles,
    pub team_ids: &'a [String],
}

/// A request as contracts see it.
pub struct UserRequestView {
    pub username: Option<Seq<char>>,
    pub roles: Seq<RoleView>,
    pub team_ids: Seq<Seq<char>>,
}

impl UserRequestView {
    /// The request that invites the account that `spec` describes.
    pub open spec fn for_invite(spec: AtlasUserSpecView) -> UserRequestView {
        UserRequestView {
            username: Some(spec.username),
            roles: spec.roles,
            team_ids: spec.team_ids,
        }
    }

    /// The request that brings an account's roles and teams to those of
    /// `spec`.
    pub open spec fn for_update(spec: AtlasUserSpecView) -> UserRequestView {
        UserRequestView { username: None, roles: spec.roles, team_ids: spec.team_ids }
    }
}

impl<'a> View for UserRequest<'a> {
    type V = UserRequestView;

    open spec fn view(&self) -> UserRequestView {
        UserRequestView {
            username: self.username.deep_view(),
            roles: self.roles.deep_view(),
            team_ids: self.team_ids.deep_view(),
        }
    }
}

impl<'a> DeepView for UserRequest<'a> {
    type V = UserRequestView;

    open spec fn deep_view(&self) -> UserRequestView {
        self@
    }
}

impl<'a> UserRequest<'a> {
    /// The request that invites the account that `spec` describes: its name,
    /// its roles and its teams.
    pub fn for_invite(spec: &'a AtlasUserSpec) -> (request: Self)
        ensures
            request@ == UserRequestView::for_invite(spec@),
    {
        let request = UserRequest {
            username: Some(spec.username.as_str()),
            roles: &spec.roles,
            team_ids: spec.team_ids.as_slice(),
        };
        request
    }

    /// The request that brings an account's roles and teams to those of
    /// `spec`. It names no account: the name cannot be changed.
    pub fn for_update(spec: &'a AtlasUserSpec) -> (request: Self)
        ensures
            request@ == UserRequestView::for_update(spec@),
    {
        let request = UserRequest {
            username: None,
            roles: &spec.roles,
            team_ids: spec.team_ids.as_slice(),
        };
        request
    }
}

} // verus!
