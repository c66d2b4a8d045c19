//! An account as the remote service describes it where it is asked for a
//! user rather than for a member of an organization.

use vstd::prelude::*;

verus! {

/// A role of an account: what the account may do, and in which organization
/// or project.
#[derive(Debug, PartialEq, Eq)]
pub struct Role {
    pub group_id: Option<String>,
    pub org_id: Option<String>,
    pub role_name: String,
}

/// A role as contracts see it.
pub struct RoleView {
    pub group_id: Option<Seq<char>>,
    pub org_id: Option<Seq<char>>,
    pub role_name: Seq<char>,
}

impl View for Role {
    type V = RoleView;

    open spec fn view(&self) -> RoleView {
        RoleView {
            group_id: self.group_id.deep_view(),
            org_id: self.org_id.deep_view(),
            role_name: self.role_name@,
        }
    }
}

impl DeepView for Role {
    type V = RoleView;

    open spec fn deep_view(&self) -> RoleView {
        self@
    }
}

/// An account of the remote service.
#[derive(Debug, PartialEq, Eq)]
pub struct User {
    pub id: String,
    pub country: String,
    pub first_name: String,
    pub last_name: String,
    pub username: String,
    pub roles: Option<Vec<Role>>,
    /// When the account was created, as the remote service writes it.
    pub created_at: Option<String>,
}

/// An account as contracts see it.
pub struct UserView {
    pub id: Seq<char>,
    pub country: Seq<char>,
    pub first_name: Seq<char>,
    pub last_name: Seq<char>,
    pub username: Seq<char>,
    pub roles: Option<Seq<RoleView>>,
    pub created_at: Option<Seq<char>>,
}

impl View for User {
    type V = UserView;

    open spec fn view(&self) -> UserView {
        UserView {
            id: self.id@,
            country: self.country@,
            first_name: self.first_name@,
            last_name: self.last_name@,
            username: self.username@,
            roles: self.roles.deep_view(),
            created_at: self.created_at.deep_view(),
        }
    }
}

} // verus!
