//! What the remote service answers about an account.

use vstd::prelude::*;

use crate::crd::{AtlasUserRoles, MembershipView, RoleView, UserOrgMembershipStatus};

verus! {

/// An account as the remote service describes it.
#[derive(Debug, PartialEq, Eq)]
pub struct UserResponse {
    /// The identifier that the remote service gave the account.
    pub id: String,
    pub org_membership_status: UserOrgMembershipStatus,
    pub roles: AtlasUserRoles,
    pub team_ids: Vec<String>,
    pub username: String,
}

/// An account as contracts see it.
pub struct UserResponseView {
    pub id: Seq<char>,
    pub org_membership_status: MembershipView,
    pub roles: Seq<RoleView>,
    pub team_ids: Seq<Seq<char>>,
    pub username: Seq<char>,
}

impl View for UserResponse {
    type V = UserResponseView;

    open spec fn view(&self) -> UserResponseView {
        UserResponseView {
            id: self.id@,
            org_membership_status: self.org_membership_status@,
            roles: self.roles.deep_view(),
            team_ids: self.team_ids.deep_view(),
            username: self.username@,
        }
    }
}

impl DeepView for UserResponse {
    type V = UserResponseView;

    open spec fn deep_view(&self) -> UserResponseView {
        self@
    }
}

} // verus!
