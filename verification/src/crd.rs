//! The user-account resource: what its owner asks for, what the controller has
//! observed, and the metadata the cluster keeps about it.

use vstd::prelude::*;
use vstd::string::StringExecFns;

verus! {

/// The roles an account can hold.
#[derive(Clone, Copy, Debug, PartialEq, Eq, Hash, Structural)]
pub enum RoleName {
    OrgOwner,
    OrgMember,
    OrgGroupCreator,
    OrgBillingAdmin,
    OrgReadOnly,
    GroupClusterManager,
    GroupDataAccessAdmin,
    GroupDataAccessReadOnly,
    GroupDataAccessReadWrite,
    GroupOwner,
    GroupReadOnly,
    GroupSearchIndexEditor,
    GroupStreamProcessingOwner,
}

/// Where a role applies: in the whole organization, or in one project of it.
#[derive(Debug, PartialEq, Eq)]
pub enum RoleScope {
    Organization,
    Project { group_id: String },
}

/// A role's scope as contracts see it.
pub enum RoleScopeView {
    Organization,
    Project { group_id: Seq<char> },
}

impl View for RoleScope {
    type V = RoleScopeView;

    open spec fn view(&self) -> RoleScopeView {
        match *self {
            RoleScope::Organization => RoleScopeView::Organization,
            RoleScope::Project { group_id } => RoleScopeView::Project { group_id: group_id@ },
        }
    }
}

impl DeepView for RoleScope {
    type V = RoleScopeView;

    open spec fn deep_view(&self) -> RoleScopeView {
        self@
    }
}

impl Clone for RoleScope {
    fn clone(&self) -> (copy: Self)
        ensures
            copy@ == self@,
    {
        match self {
            RoleScope::Organization => RoleScope::Organization,
            RoleScope::Project { group_id } => RoleScope::Project { group_id: group_id.clone() },
        }
    }
}

/// One role assignment of the desired state.
#[derive(Debug, PartialEq, Eq)]
pub struct Role {
    pub scope: RoleScope,
    pub role_name: RoleName,
}

/// A role assignment as contracts see it.
pub struct RoleView {
    pub scope: RoleScopeView,
    pub role_name: RoleName,
}

impl View for Role {
    type V = RoleView;

    open spec fn view(&self) -> RoleView {
        RoleView { scope: self.scope@, role_name: self.role_name }
    }
}

impl DeepView for Role {
    type V = RoleView;

    open spec fn deep_view(&self) -> RoleView {
        self@
    }
}

impl Clone for Role {
    fn clone(&self) -> (copy: Self)
        ensures
            copy@ == self@,
    {
        Role { scope: self.scope.clone(), role_name: self.role_name }
    }
}

/// The role assignments of one account.
pub type AtlasUserRoles = Vec<Role>;

/// The desired state of a user account, as the owner of the resource wrote it.
#[derive(Debug, PartialEq, Eq)]
pub struct AtlasUserSpec {
    pub org_id: String,
    pub username: String,
    pub roles: AtlasUserRoles,
    pub team_ids: Vec<String>,
}

/// The desired state as contracts see it.
pub struct AtlasUserSpecView {
    pub org_id: Seq<char>,
    pub username: Seq<char>,
    pub roles: Seq<RoleView>,
    pub team_ids: Seq<Seq<char>>,
}

impl View for AtlasUserSpec {
    type V = AtlasUserSpecView;

    open spec fn view(&self) -> AtlasUserSpecView {
        AtlasUserSpecView {
            org_id: self.org_id@,
            username: self.username@,
            roles: self.roles.deep_view(),
            team_ids: self.team_ids.deep_view(),
        }
    }
}

/// The standing of an account in its organization, as the remote service
/// reports it. `Other` carries a state this controller has no name for.
#[derive(Debug, PartialEq, Eq)]
pub enum UserOrgMembershipStatus {
    Pending,
    Active,
    Deleted,
    Other(String),
}

/// The standing of an account as contracts see it.
pub enum MembershipView {
    Pending,
    Active,
    Deleted,
    Other(Seq<char>),
}

impl View for UserOrgMembershipStatus {
    type V = MembershipView;

    open spec fn view(&self) -> MembershipView {
        match *self {
            UserOrgMembershipStatus::Pending => MembershipView::Pending,
            UserOrgMembershipStatus::Active => MembershipView::Active,
            UserOrgMembershipStatus::Deleted => MembershipView::Deleted,
            UserOrgMembershipStatus::Other(state) => MembershipView::Other(state@),
        }
    }
}

impl DeepView for UserOrgMembershipStatus {
    type V = MembershipView;

    open spec fn deep_view(&self) -> MembershipView {
        self@
    }
}

impl Clone for UserOrgMembershipStatus {
    fn clone(&self) -> (copy: Self)
        ensures
            copy@ == self@,
    {
        match self {
            UserOrgMembershipStatus::Pending => UserOrgMembershipStatus::Pending,
            UserOrgMembershipStatus::Active => UserOrgMembershipStatus::Active,
            UserOrgMembershipStatus::Deleted => UserOrgMembershipStatus::Deleted,
            UserOrgMembershipStatus::Other(state) => UserOrgMembershipStatus::Other(state.clone()),
        }
    }
}

impl MembershipView {
    /// The name that the remote service gives the standing.
    pub open spec fn name(self) -> Seq<char> {
        match self {
            MembershipView::Pending => "PENDING"@,
            MembershipView::Active => "ACTIVE"@,
            MembershipView::Deleted => "DELETED"@,
            MembershipView::Other(state) => state,
        }
    }

    /// The standing that the remote service calls `name`.
    pub open spec fn named(name: Seq<char>) -> MembershipView {
        if name == "PENDING"@ {
            MembershipView::Pending
        } else if name == "ACTIVE"@ {
            MembershipView::Active
        } else if name == "DELETED"@ {
            MembershipView::Deleted
        } else {
            MembershipView::Other(name)
        }
    }
}

impl UserOrgMembershipStatus {
    /// The name that the remote service gives the standing.
    pub fn name(&self) -> (name: String)
        ensures
            name@ == self@.name(),
    {
        match self {
            UserOrgMembershipStatus::Pending => String::from_str("PENDING"),
            UserOrgMembershipStatus::Active => String::from_str("ACTIVE"),
            UserOrgMembershipStatus::Deleted => String::from_str("DELETED"),
            UserOrgMembershipStatus::Other(state) => state.clone(),
        }
    }

    /// The standing that the remote service calls `name`. A name that is not
    /// one of the three known ones is kept as it is.
    pub fn named(name: &str) -> (status: Self)
        ensures
            status@ == MembershipView::named(name@),
    {
        let state: String = name.to_owned();
        if state == String::from_str("PENDING") {
            UserOrgMembershipStatus::Pending
        } else if state == String::from_str("ACTIVE") {
            UserOrgMembershipStatus::Active
        } else if state == String::from_str("DELETED") {
            UserOrgMembershipStatus::Deleted
        } else {
            UserOrgMembershipStatus::Other(state)
        }
    }
}

/// Every name stands for a standing that bears that name: what the remote
/// service reports can be written back as it was read.
pub proof fn membership_keeps_its_name(name: Seq<char>)
    ensures
        MembershipView::named(name).name() == name,
{
}

/// The observed state of a user account. Only the controller writes it.
#[derive(Debug, PartialEq, Eq)]
pub struct AtlasUserStatus {
    /// The remote account's identifier, once one was created or found.
    pub user_id: Option<String>,
    pub membership_status: Option<UserOrgMembershipStatus>,
    /// The last failure, cleared by every success.
    pub error: Option<String>,
    /// The last revision of the desired state that was carried out.
    pub observed_generation: Option<i64>,
}

/// The observed state as contracts see it.
pub struct AtlasUserStatusView {
    pub user_id: Option<Seq<char>>,
    pub membership_status: Option<MembershipView>,
    pub error: Option<Seq<char>>,
    pub observed_generation: Option<i64>,
}

impl AtlasUserStatusView {
    /// The status of a resource on which nothing was observed yet.
    pub open spec fn empty() -> AtlasUserStatusView {
        AtlasUserStatusView {
            user_id: None,
            membership_status: None,
            error: None,
            observed_generation: None,
        }
    }

    /// This status, with `generation` as its watermark where there is one.
    pub open spec fn observing(self, generation: Option<i64>) -> AtlasUserStatusView {
        match generation {
            Some(observed) => AtlasUserStatusView { observed_generation: Some(observed), ..self },
            None => self,
        }
    }
}

impl View for AtlasUserStatus {
    type V = AtlasUserStatusView;

    open spec fn view(&self) -> AtlasUserStatusView {
        AtlasUserStatusView {
            user_id: self.user_id.deep_view(),
            membership_status: self.membership_status.deep_view(),
            error: self.error.deep_view(),
            observed_generation: self.observed_generation,
        }
    }
}

impl DeepView for AtlasUserStatus {
    type V = AtlasUserStatusView;

    open spec fn deep_view(&self) -> AtlasUserStatusView {
        self@
    }
}

impl Default for AtlasUserStatus {
    fn default() -> (status: Self)
        ensures
            status@ == AtlasUserStatusView::empty(),
    {
        AtlasUserStatus {
            user_id: None,
            membership_status: None,
            error: None,
            observed_generation: None,
        }
    }
}

impl Clone for AtlasUserStatus {
    fn clone(&self) -> (copy: Self)
        ensures
            copy@ == self@,
    {
        AtlasUserStatus {
            user_id: clone_text(&self.user_id),
            membership_status: match &self.membership_status {
                Some(state) => Some(state.clone()),
                None => None,
            },
            error: clone_text(&self.error),
            observed_generation: self.observed_generation,
        }
    }
}

impl AtlasUserStatus {
    /// Records `observed_generation` as the last revision carried out.
    pub fn add(&mut self, observed_generation: i64)
        ensures
            final(self)@ == old(self)@.observing(Some(observed_generation)),
    {
        self.observed_generation = Some(observed_generation);
    }

    /// Moves the watermark to the revision that `meta` carries. A resource
    /// without a revision leaves the status as it is.
    pub fn with_observed_gen(&mut self, meta: &Metadata)
        ensures
            final(self)@ == old(self)@.observing(meta.generation),
    {
        match meta.generation {
            Some(observed_generation) => self.add(observed_generation),
            None => {},
        }
    }
}

/// A copy of an optional text.
fn clone_text(text: &Option<String>) -> (copy: Option<String>)
    ensures
        copy.deep_view() == text.deep_view(),
{
    match text {
        Some(value) => Some(value.clone()),
        None => None,
    }
}

/// What the cluster keeps about a resource besides its desired and observed
/// state.
#[derive(Debug, PartialEq, Eq)]
pub struct Metadata {
    pub name: Option<String>,
    pub namespace: Option<String>,
    /// The revision of the desired state; the cluster raises it on every edit.
    pub generation: Option<i64>,
    /// When deletion was requested, if it was.
    pub deletion_timestamp: Option<String>,
    pub finalizers: Vec<String>,
}

/// The metadata of a resource as contracts see it.
pub struct MetadataView {
    pub name: Option<Seq<char>>,
    pub namespace: Option<Seq<char>>,
    pub generation: Option<i64>,
    pub deletion_timestamp: Option<Seq<char>>,
    pub finalizers: Seq<Seq<char>>,
}

impl MetadataView {
    /// Whether deletion of the resource was requested.
    pub open spec fn marked_for_deletion(self) -> bool {
        self.deletion_timestamp is Some
    }

    /// The place of the first finalizer called `name`, if there is one.
    pub open spec fn finalizer_index(self, name: Seq<char>) -> Option<int> {
        self.finalizers.index_of_first(name)
    }
}

impl View for Metadata {
    type V = MetadataView;

    open spec fn view(&self) -> MetadataView {
        MetadataView {
            name: self.name.deep_view(),
            namespace: self.namespace.deep_view(),
            generation: self.generation,
            deletion_timestamp: self.deletion_timestamp.deep_view(),
            finalizers: self.finalizers.deep_view(),
        }
    }
}

impl Metadata {
    /// Whether deletion of the resource was requested.
    pub fn is_marked_for_deletion(&self) -> (marked: bool)
        ensures
            marked == self@.marked_for_deletion(),
    {
        self.deletion_timestamp.is_some()
    }

    /// Looks for the finalizer called `name` and gives the place of its first
    /// occurrence.
    pub fn finalizer_index(&self, name: &str) -> (found: Option<usize>)
        ensures
            found is Some <==> self@.finalizers.contains(name@),
            match found {
                Some(index) => self@.finalizer_index(name@) == Some(index as int),
                None => self@.finalizer_index(name@) is None,
            },
    {
        let wanted: String = name.to_owned();
        let mut index: usize = 0;
        while index < self.finalizers.len()
            invariant
                index <= self.finalizers.len(),
                wanted@ == name@,
                self@.finalizers.len() == self.finalizers.len(),
                forall|earlier: int| 0 <= earlier < index ==> self@.finalizers[earlier] != name@,
            decreases self.finalizers.len() - index,
        {
            assert(self@.finalizers[index as int] == self.finalizers[index as int]@);
            if self.finalizers[index] == wanted {
                proof {
                    self@.finalizers.index_of_first_ensures(name@);
                }
                return Some(index);
            }
            index += 1;
        }
        proof {
            self@.finalizers.index_of_first_ensures(name@);
        }
        None
    }
}

/// A user-account resource as the cluster holds it.
#[derive(Debug, PartialEq, Eq)]
pub struct AtlasUser {
    pub metadata: Metadata,
    pub spec: AtlasUserSpec,
    pub status: Option<AtlasUserStatus>,
}

/// A resource as contracts see it.
pub struct AtlasUserView {
    pub metadata: MetadataView,
    pub spec: AtlasUserSpecView,
    pub status: Option<AtlasUserStatusView>,
}

impl AtlasUserView {
    /// The remote account that the status names, if it names one.
    pub open spec fn user_id(self) -> Option<Seq<char>> {
        match self.status {
            Some(status) => status.user_id,
            None => None,
        }
    }

    /// The recorded status, or the empty one where none was recorded.
    pub open spec fn status_or_empty(self) -> AtlasUserStatusView {
        match self.status {
            Some(status) => status,
            None => AtlasUserStatusView::empty(),
        }
    }

    /// The same resource with `status` recorded on it.
    pub open spec fn with_status(self, status: AtlasUserStatusView) -> AtlasUserView {
        AtlasUserView { status: Some(status), ..self }
    }
}

impl View for AtlasUser {
    type V = AtlasUserView;

    open spec fn view(&self) -> AtlasUserView {
        AtlasUserView {
            metadata: self.metadata@,
            spec: self.spec@,
            status: self.status.deep_view(),
        }
    }
}

impl AtlasUser {
    /// The remote account that the status names, if it names one.
    pub fn user_id(&self) -> (id: Option<&str>)
        ensures
            id.deep_view() == self@.user_id(),
    {
        match &self.status {
            Some(status) => match &status.user_id {
                Some(id) => Some(id.as_str()),
                None => None,
            },
            None => None,
        }
    }

    /// A copy of the recorded status, or the empty status where none was
    /// recorded.
    pub fn status_or_default(&self) -> (status: AtlasUserStatus)
        ensures
            status@ == self@.status_or_empty(),
    {
        match &self.status {
            Some(status) => status.clone(),
            None => AtlasUserStatus::default(),
        }
    }
}

} // verus!
