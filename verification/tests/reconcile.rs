use atlas_user_operator::atlas::context::{ApplyPlan, AtlasUserContext, Recovery, StatusUpdate};
use atlas_user_operator::atlas::error::{Error, StatusCode};
use atlas_user_operator::atlas::repository::AtlasUserRepository;
use atlas_user_operator::atlas::user_response::UserResponse;
use atlas_user_operator::config::AtlasUserConfig;
use atlas_user_operator::crd::{
    AtlasUser, AtlasUserSpec, AtlasUserStatus, Metadata, UserOrgMembershipStatus,
};
use atlas_user_operator::k8s::{Action, Interval};
use atlas_user_operator::operator::atlasuser::{AtlasUserReconciler, Dispatch};
use atlas_user_operator::operator::error::Error as ReconcileError;

const FINALIZER: &str = "atlasusers.moertel.com/finalizer";

/// A remote service and a cluster that live in memory and keep count of what
/// they were asked.
struct World {
    accounts: Vec<(String, String, UserOrgMembershipStatus)>,
    resource: AtlasUser,
    invites: usize,
    updates: usize,
    gets: usize,
    deletes: usize,
    searches: usize,
    writes: usize,
    next_id: usize,
}

fn account(id: &str, username: &str, status: &UserOrgMembershipStatus) -> UserResponse {
    UserResponse {
        id: id.to_string(),
        org_membership_status: status.clone(),
        roles: vec![],
        team_ids: vec![],
        username: username.to_string(),
    }
}

fn missing() -> Error {
    Error::Api { status: StatusCode::from_u16(404).unwrap(), message: "no such user".to_string() }
}

impl World {
    fn new(generation: i64) -> World {
        World {
            accounts: vec![],
            resource: AtlasUser {
                metadata: Metadata {
                    name: Some("alice".to_string()),
                    namespace: Some("default".to_string()),
                    generation: Some(generation),
                    deletion_timestamp: None,
                    finalizers: vec![],
                },
                spec: AtlasUserSpec {
                    org_id: "o1".to_string(),
                    username: "a@x.com".to_string(),
                    roles: vec![],
                    team_ids: vec![],
                },
                status: None,
            },
            invites: 0,
            updates: 0,
            gets: 0,
            deletes: 0,
            searches: 0,
            writes: 0,
            next_id: 1,
        }
    }

    fn calls(&self) -> usize {
        self.invites + self.updates + self.gets + self.deletes + self.searches
    }

    fn invite(&mut self, username: Option<&str>) -> Result<UserResponse, Error> {
        self.invites += 1;
        let id = format!("u{}", self.next_id);
        self.next_id += 1;
        let name = username.unwrap().to_string();
        self.accounts.push((id.clone(), name.clone(), UserOrgMembershipStatus::Pending));
        Ok(account(&id, &name, &UserOrgMembershipStatus::Pending))
    }

    fn update(&mut self, user_id: &str) -> Result<UserResponse, Error> {
        self.updates += 1;
        self.get(user_id).map_err(|_| missing())
    }

    fn read(&mut self, user_id: &str) -> Result<UserResponse, Error> {
        self.gets += 1;
        self.get(user_id)
    }

    fn get(&self, user_id: &str) -> Result<UserResponse, Error> {
        match self.accounts.iter().find(|(id, _, _)| id == user_id) {
            Some((id, name, status)) => Ok(account(id, name, status)),
            None => Err(AtlasUserRepository::not_found("o1", user_id)),
        }
    }

    fn delete(&mut self, user_id: &str) -> Result<(), Error> {
        self.deletes += 1;
        let before = self.accounts.len();
        self.accounts.retain(|(id, _, _)| id != user_id);
        if self.accounts.len() < before {
            Ok(())
        } else {
            Err(missing())
        }
    }

    fn search(&mut self, username: &str) -> Result<Option<UserResponse>, Error> {
        self.searches += 1;
        let listed =
            self.accounts.iter().map(|(id, name, status)| account(id, name, status)).collect();
        Ok(AtlasUserRepository::find_atlas_user_by_username(listed, username))
    }

    fn write(&mut self, update: StatusUpdate) -> Result<Action, Error> {
        self.writes += 1;
        self.resource.status = Some(update.status.clone());
        update.written(Ok(()))
    }

    /// One reconcile of the resource, carried out as the dispatcher says.
    fn reconcile(&mut self, reconciler: &AtlasUserReconciler) -> Result<Action, ReconcileError> {
        let resource = AtlasUser {
            metadata: Metadata {
                name: self.resource.metadata.name.clone(),
                namespace: self.resource.metadata.namespace.clone(),
                generation: self.resource.metadata.generation,
                deletion_timestamp: self.resource.metadata.deletion_timestamp.clone(),
                finalizers: self.resource.metadata.finalizers.clone(),
            },
            spec: AtlasUserSpec {
                org_id: self.resource.spec.org_id.clone(),
                username: self.resource.spec.username.clone(),
                roles: self.resource.spec.roles.clone(),
                team_ids: self.resource.spec.team_ids.clone(),
            },
            status: self.resource.status.clone(),
        };
        let context: AtlasUserContext = reconciler.atlas_context;
        match reconciler.reconcile(&resource)? {
            Dispatch::Wait(action) => Ok(action),
            Dispatch::AddFinalizer => {
                self.resource.metadata.finalizers.push(FINALIZER.to_string());
                reconciler.finalizer_added(Ok(()))
            }
            Dispatch::Apply(plan) => {
                let end = self.apply(&context, &resource, plan);
                reconciler.applied(end)
            }
            Dispatch::Cleanup { index, user_id, .. } => {
                let reply = self.delete(user_id);
                let end = match context.delete_user(&resource, reply) {
                    Ok(update) => self.write(update),
                    Err(failure) => Err(failure),
                };
                let removal = reconciler.cleaned_up(index, end)?;
                self.resource.metadata.finalizers.remove(removal.index);
                reconciler.finalizer_removed(removal, Ok(()))
            }
        }
    }

    fn apply(
        &mut self,
        context: &AtlasUserContext,
        resource: &AtlasUser,
        plan: ApplyPlan<'_>,
    ) -> Result<Action, Error> {
        match plan {
            ApplyPlan::Invite { request, .. } => {
                let reply = self.invite(request.username);
                self.write(context.invite_user(resource, reply)?)
            }
            ApplyPlan::Update { user_id, .. } => {
                let reply = self.update(user_id);
                self.write(context.update_user(resource, reply)?)
            }
            ApplyPlan::Sync { user_id, .. } => {
                let reply = self.read(user_id);
                self.write(context.sync_status(resource, reply)?)
            }
            ApplyPlan::Recover { username, .. } => {
                let found = self.search(username);
                match context.recover_user(resource, found)? {
                    Recovery::Adopt(update) => self.write(update),
                    Recovery::Invite { request, .. } => {
                        let reply = self.invite(request.username);
                        self.write(context.invite_user(resource, reply)?)
                    }
                }
            }
        }
    }
}

fn reconciler(safe_to_delete: bool) -> AtlasUserReconciler {
    AtlasUserReconciler::new(AtlasUserContext::new(AtlasUserConfig {
        requeue_duration: Interval { secs: 60, nanos: 0 },
        safe_to_delete,
    }))
}

fn minute() -> Action {
    Action::Requeue(Interval { secs: 60, nanos: 0 })
}

#[test]
fn life_of_a_resource() {
    let reconciler = reconciler(true);
    let mut world = World::new(1);

    // Taken on: the finalizer goes on, nothing is asked of the remote service.
    assert_eq!(world.reconcile(&reconciler), Ok(Action::AwaitChange));
    assert_eq!(world.resource.metadata.finalizers, vec![FINALIZER.to_string()]);
    assert_eq!(world.calls(), 0);
    assert_eq!(world.resource.status, None);

    // New: invited with one call.
    assert_eq!(world.reconcile(&reconciler), Ok(minute()));
    assert_eq!((world.invites, world.calls(), world.writes), (1, 1, 1));
    assert_eq!(
        world.resource.status,
        Some(AtlasUserStatus {
            user_id: Some("u1".to_string()),
            membership_status: Some(UserOrgMembershipStatus::Pending),
            error: None,
            observed_generation: Some(1),
        })
    );

    // In step: read, and read again, with the same status each time.
    assert_eq!(world.reconcile(&reconciler), Ok(minute()));
    let once = world.resource.status.clone();
    assert_eq!(world.reconcile(&reconciler), Ok(minute()));
    assert_eq!(world.resource.status, once);
    assert_eq!((world.invites, world.updates, world.gets), (1, 0, 2));

    // The account is accepted on the remote side: the status follows.
    world.accounts[0].2 = UserOrgMembershipStatus::Active;
    assert_eq!(world.reconcile(&reconciler), Ok(minute()));
    assert_eq!(
        world.resource.status.as_ref().unwrap().membership_status,
        Some(UserOrgMembershipStatus::Active)
    );

    // Edited: updated with one call, and the revision is carried out.
    world.resource.metadata.generation = Some(2);
    assert_eq!(world.reconcile(&reconciler), Ok(minute()));
    assert_eq!((world.invites, world.updates, world.gets), (1, 1, 3));
    assert_eq!(world.resource.status.as_ref().unwrap().observed_generation, Some(2));
    assert_eq!(world.reconcile(&reconciler), Ok(minute()));
    assert_eq!((world.invites, world.updates, world.gets), (1, 1, 4));

    // Deleted: the account goes first, then the finalizer.
    world.resource.metadata.deletion_timestamp = Some("2024-05-01T10:00:00Z".to_string());
    assert_eq!(world.reconcile(&reconciler), Ok(Action::AwaitChange));
    assert_eq!(world.deletes, 1);
    assert!(world.accounts.is_empty());
    assert!(world.resource.metadata.finalizers.is_empty());
    assert_eq!(
        world.resource.status,
        Some(AtlasUserStatus {
            user_id: Some("u1".to_string()),
            membership_status: Some(UserOrgMembershipStatus::Deleted),
            error: None,
            observed_generation: Some(2),
        })
    );

    // Nothing is left to do.
    assert_eq!(world.reconcile(&reconciler), Ok(Action::AwaitChange));
    assert_eq!((world.invites, world.updates, world.gets, world.deletes), (1, 1, 4, 1));
}

#[test]
fn account_removed_behind_the_back_of_the_controller() {
    let reconciler = reconciler(true);
    let mut world = World::new(3);
    world.resource.metadata.finalizers = vec![FINALIZER.to_string()];
    world.resource.status = Some(AtlasUserStatus {
        user_id: Some("u1".to_string()),
        membership_status: Some(UserOrgMembershipStatus::Active),
        error: None,
        observed_generation: Some(3),
    });

    assert_eq!(world.reconcile(&reconciler), Ok(minute()));
    assert_eq!((world.gets, world.invites, world.calls()), (1, 0, 1));
    assert_eq!(
        world.resource.status,
        Some(AtlasUserStatus {
            user_id: None,
            membership_status: None,
            error: Some("User was deleted externally from Atlas".to_string()),
            observed_generation: Some(3),
        })
    );
}

#[test]
fn status_lost_after_the_invitation() {
    let reconciler = reconciler(true);
    let mut world = World::new(2);
    world.resource.metadata.finalizers = vec![FINALIZER.to_string()];
    world.accounts.push(("u5".to_string(), "a@x.com".to_string(), UserOrgMembershipStatus::Active));

    assert_eq!(world.reconcile(&reconciler), Ok(Action::Requeue(Interval { secs: 1, nanos: 0 })));
    assert_eq!((world.searches, world.invites, world.calls()), (1, 0, 1));
    assert_eq!(
        world.resource.status,
        Some(AtlasUserStatus {
            user_id: Some("u5".to_string()),
            membership_status: Some(UserOrgMembershipStatus::Active),
            error: None,
            observed_generation: Some(2),
        })
    );
    assert_eq!(world.reconcile(&reconciler), Ok(minute()));
    assert_eq!((world.searches, world.invites, world.gets), (1, 0, 1));
}

#[test]
fn orphan_without_a_remote_account() {
    let reconciler = reconciler(true);
    let mut world = World::new(2);
    world.resource.metadata.finalizers = vec![FINALIZER.to_string()];
    world.accounts.push(("u5".to_string(), "b@x.com".to_string(), UserOrgMembershipStatus::Active));

    assert_eq!(world.reconcile(&reconciler), Ok(minute()));
    assert_eq!((world.searches, world.invites, world.calls()), (1, 1, 2));
    assert_eq!(world.resource.status.as_ref().unwrap().user_id, Some("u1".to_string()));
    assert_eq!(world.resource.status.as_ref().unwrap().observed_generation, Some(2));
}

#[test]
fn deletion_waits_while_accounts_are_not_to_be_deleted() {
    let reconciler = reconciler(false);
    let mut world = World::new(1);
    world.resource.metadata.finalizers = vec![FINALIZER.to_string()];
    world.resource.metadata.deletion_timestamp = Some("2024-05-01T10:00:00Z".to_string());
    world.accounts.push(("u1".to_string(), "a@x.com".to_string(), UserOrgMembershipStatus::Active));
    world.resource.status = Some(AtlasUserStatus {
        user_id: Some("u1".to_string()),
        membership_status: Some(UserOrgMembershipStatus::Active),
        error: None,
        observed_generation: Some(1),
    });

    assert_eq!(world.reconcile(&reconciler), Ok(Action::AwaitChange));
    assert_eq!(world.reconcile(&reconciler), Ok(Action::AwaitChange));
    assert_eq!((world.calls(), world.writes), (0, 0));
    assert_eq!(world.resource.metadata.finalizers, vec![FINALIZER.to_string()]);
    assert_eq!(world.accounts.len(), 1);
}

#[test]
fn failed_deletion_keeps_the_finalizer() {
    let reconciler = reconciler(true);
    let mut world = World::new(1);
    world.resource.metadata.finalizers = vec![FINALIZER.to_string()];
    world.resource.metadata.deletion_timestamp = Some("2024-05-01T10:00:00Z".to_string());
    world.resource.status = Some(AtlasUserStatus {
        user_id: Some("u1".to_string()),
        membership_status: Some(UserOrgMembershipStatus::Active),
        error: None,
        observed_generation: Some(1),
    });

    let end = world.reconcile(&reconciler);
    assert!(end.is_err());
    assert_eq!(
        reconciler.error_policy(&world.resource, &end.unwrap_err()),
        Action::Requeue(Interval { secs: 5, nanos: 0 })
    );
    assert_eq!((world.deletes, world.writes), (1, 0));
    assert_eq!(world.resource.metadata.finalizers, vec![FINALIZER.to_string()]);
}
