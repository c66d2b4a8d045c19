use atlas_user_operator::atlas::context::{
    ApplyPlan, AtlasUserContext, ReconcileState, Recovery, StatusUpdate,
};
use atlas_user_operator::atlas::error::{Error, StatusCode};
use atlas_user_operator::atlas::repository::RemoteCall;
use atlas_user_operator::atlas::user_request::UserRequest;
use atlas_user_operator::atlas::user_response::UserResponse;
use atlas_user_operator::config::AtlasUserConfig;
use atlas_user_operator::crd::{
    AtlasUser, AtlasUserSpec, AtlasUserStatus, Metadata, Role, RoleName, RoleScope,
    UserOrgMembershipStatus,
};
use atlas_user_operator::k8s::{Action, Interval};

fn spec() -> AtlasUserSpec {
    AtlasUserSpec {
        org_id: "o1".to_string(),
        username: "a@x.com".to_string(),
        roles: vec![Role { scope: RoleScope::Organization, role_name: RoleName::OrgMember }],
        team_ids: vec![],
    }
}

fn user(generation: Option<i64>, status: Option<AtlasUserStatus>) -> AtlasUser {
    AtlasUser {
        metadata: Metadata {
            name: Some("alice".to_string()),
            namespace: Some("default".to_string()),
            generation,
            deletion_timestamp: None,
            finalizers: vec!["atlasusers.moertel.com/finalizer".to_string()],
        },
        spec: spec(),
        status,
    }
}

fn known(user_id: &str, observed: Option<i64>) -> AtlasUserStatus {
    AtlasUserStatus {
        user_id: Some(user_id.to_string()),
        membership_status: Some(UserOrgMembershipStatus::Pending),
        error: Some("earlier failure".to_string()),
        observed_generation: observed,
    }
}

fn account(id: &str, status: UserOrgMembershipStatus) -> UserResponse {
    UserResponse {
        id: id.to_string(),
        org_membership_status: status,
        roles: vec![],
        team_ids: vec![],
        username: "a@x.com".to_string(),
    }
}

fn context() -> AtlasUserContext {
    AtlasUserContext::new(AtlasUserConfig {
        requeue_duration: Interval { secs: 90, nanos: 500 },
        safe_to_delete: true,
    })
}

fn api_error() -> Error {
    Error::Api { status: StatusCode::from_u16(500).unwrap(), message: "boom".to_string() }
}

#[test]
fn end_to_end_new_resource_is_invited() {
    let context = AtlasUserContext::new(AtlasUserConfig::default());
    let resource = user(Some(1), None);
    let plan = context.handle_apply(&resource).unwrap();
    let roles = vec![Role { scope: RoleScope::Organization, role_name: RoleName::OrgMember }];
    let teams: Vec<String> = vec![];
    assert_eq!(
        plan,
        ApplyPlan::Invite {
            org_id: "o1",
            request: UserRequest { username: Some("a@x.com"), roles: &roles, team_ids: &teams },
        }
    );
    assert_eq!(plan.state(), ReconcileState::New);
    let update = context
        .invite_user(&resource, Ok(account("u1", UserOrgMembershipStatus::Pending)))
        .unwrap();
    assert_eq!(
        update.status,
        AtlasUserStatus {
            user_id: Some("u1".to_string()),
            membership_status: Some(UserOrgMembershipStatus::Pending),
            error: None,
            observed_generation: Some(1),
        }
    );
    assert_eq!(update.action, Action::Requeue(Interval { secs: 60, nanos: 0 }));
    assert_eq!(update.written(Ok(())), Ok(Action::Requeue(Interval { secs: 60, nanos: 0 })));
}

#[test]
fn new_resource_with_a_leftover_status_is_invited() {
    let leftover = AtlasUserStatus {
        user_id: None,
        membership_status: None,
        error: Some("User was deleted externally from Atlas".to_string()),
        observed_generation: Some(1),
    };
    let resource = user(Some(1), Some(leftover));
    let context = context();
    assert_eq!(context.state(&resource), ReconcileState::New);
    let update = context
        .invite_user(&resource, Ok(account("u9", UserOrgMembershipStatus::Active)))
        .unwrap();
    assert_eq!(update.status.user_id, Some("u9".to_string()));
    assert_eq!(update.status.membership_status, Some(UserOrgMembershipStatus::Active));
    assert_eq!(update.status.error, None);
    assert_eq!(update.status.observed_generation, Some(1));
    assert_eq!(update.action, Action::Requeue(Interval { secs: 90, nanos: 500 }));
}

#[test]
fn resource_without_a_revision_counts_as_new() {
    let resource = user(None, None);
    let context = context();
    assert_eq!(context.state(&resource), ReconcileState::New);
    assert!(!context.needs_update(&resource));
    let update = context
        .invite_user(&resource, Ok(account("u1", UserOrgMembershipStatus::Pending)))
        .unwrap();
    assert_eq!(update.status.observed_generation, None);
}

#[test]
fn failed_invitation_writes_nothing() {
    let resource = user(Some(1), None);
    assert_eq!(context().invite_user(&resource, Err(api_error())), Err(api_error()));
}

#[test]
fn synced_resource_is_read() {
    let resource = user(Some(3), Some(known("u1", Some(3))));
    let context = context();
    assert!(!context.needs_update(&resource));
    assert_eq!(context.state(&resource), ReconcileState::Synced);
    let plan = context.handle_apply(&resource).unwrap();
    assert_eq!(plan, ApplyPlan::Sync { org_id: "o1", user_id: "u1" });
    assert_eq!(plan.call(), RemoteCall::Get { org_id: "o1", user_id: "u1" });
    let update = context
        .sync_status(&resource, Ok(account("u1", UserOrgMembershipStatus::Active)))
        .unwrap();
    assert_eq!(
        update,
        StatusUpdate {
            status: AtlasUserStatus {
                user_id: Some("u1".to_string()),
                membership_status: Some(UserOrgMembershipStatus::Active),
                error: None,
                observed_generation: Some(3),
            },
            action: Action::Requeue(Interval { secs: 90, nanos: 500 }),
        }
    );
}

#[test]
fn resource_behind_its_status_is_read_too() {
    let resource = user(Some(2), Some(known("u1", Some(5))));
    assert_eq!(context().state(&resource), ReconcileState::Synced);
}

#[test]
fn sync_twice_writes_the_same_status() {
    let context = context();
    let resource = user(Some(3), Some(known("u1", Some(3))));
    let first = context
        .sync_status(&resource, Ok(account("u1", UserOrgMembershipStatus::Active)))
        .unwrap();
    let again = user(Some(3), Some(first.status.clone()));
    assert_eq!(
        context.handle_apply(&again).unwrap(),
        ApplyPlan::Sync { org_id: "o1", user_id: "u1" }
    );
    let second = context
        .sync_status(&again, Ok(account("u1", UserOrgMembershipStatus::Active)))
        .unwrap();
    assert_eq!(second, first);
}

#[test]
fn account_that_is_gone_is_forgotten() {
    let resource = user(Some(3), Some(known("u1", Some(3))));
    let gone = Error::AtlasUserNotFound { user_id: "u1".to_string(), org_id: "o1".to_string() };
    let update = context().sync_status(&resource, Err(gone)).unwrap();
    assert_eq!(
        update.status,
        AtlasUserStatus {
            user_id: None,
            membership_status: None,
            error: Some("User was deleted externally from Atlas".to_string()),
            observed_generation: Some(3),
        }
    );
    assert_eq!(update.action, Action::Requeue(Interval { secs: 90, nanos: 500 }));
}

#[test]
fn failed_reading_is_handed_on() {
    let resource = user(Some(3), Some(known("u1", Some(3))));
    assert_eq!(context().sync_status(&resource, Err(api_error())), Err(api_error()));
    let transport = Error::Reqwest("connection refused".to_string());
    assert_eq!(
        context().sync_status(&resource, Err(Error::Reqwest("connection refused".to_string()))),
        Err(transport)
    );
}

#[test]
fn stale_resource_is_updated() {
    let resource = user(Some(4), Some(known("u1", Some(3))));
    let context = context();
    assert!(context.needs_update(&resource));
    assert_eq!(context.state(&resource), ReconcileState::Stale);
    let plan = context.handle_apply(&resource).unwrap();
    let roles = vec![Role { scope: RoleScope::Organization, role_name: RoleName::OrgMember }];
    let teams: Vec<String> = vec![];
    assert_eq!(
        plan,
        ApplyPlan::Update {
            org_id: "o1",
            user_id: "u1",
            request: UserRequest { username: None, roles: &roles, team_ids: &teams },
        }
    );
    let update = context
        .update_user(&resource, Ok(account("u1", UserOrgMembershipStatus::Active)))
        .unwrap();
    assert_eq!(
        update.status,
        AtlasUserStatus {
            user_id: Some("u1".to_string()),
            membership_status: Some(UserOrgMembershipStatus::Active),
            error: None,
            observed_generation: Some(4),
        }
    );
    assert_eq!(update.action, Action::Requeue(Interval { secs: 90, nanos: 500 }));
}

#[test]
fn status_without_a_watermark_is_stale() {
    let resource = user(Some(1), Some(known("u1", None)));
    assert_eq!(context().state(&resource), ReconcileState::Stale);
}

#[test]
fn failed_update_writes_nothing() {
    let resource = user(Some(4), Some(known("u1", Some(3))));
    assert_eq!(context().update_user(&resource, Err(api_error())), Err(api_error()));
}

#[test]
fn orphan_is_looked_for_and_adopted() {
    let resource = user(Some(2), None);
    let context = context();
    assert_eq!(context.state(&resource), ReconcileState::Orphan);
    let plan = context.handle_apply(&resource).unwrap();
    assert_eq!(plan, ApplyPlan::Recover { org_id: "o1", username: "a@x.com" });
    assert_eq!(plan.call(), RemoteCall::FindByUsername { org_id: "o1", username: "a@x.com" });
    let next = context
        .recover_user(&resource, Ok(Some(account("u7", UserOrgMembershipStatus::Active))))
        .unwrap();
    assert_eq!(
        next,
        Recovery::Adopt(StatusUpdate {
            status: AtlasUserStatus {
                user_id: Some("u7".to_string()),
                membership_status: Some(UserOrgMembershipStatus::Active),
                error: None,
                observed_generation: Some(2),
            },
            action: Action::Requeue(Interval { secs: 1, nanos: 0 }),
        })
    );
}

#[test]
fn orphan_without_an_account_is_invited() {
    let resource = user(Some(2), None);
    let next = context().recover_user(&resource, Ok(None)).unwrap();
    let roles = vec![Role { scope: RoleScope::Organization, role_name: RoleName::OrgMember }];
    let teams: Vec<String> = vec![];
    assert_eq!(
        next,
        Recovery::Invite {
            org_id: "o1",
            request: UserRequest { username: Some("a@x.com"), roles: &roles, team_ids: &teams },
        }
    );
}

#[test]
fn failed_search_is_handed_on() {
    let resource = user(Some(2), None);
    assert_eq!(context().recover_user(&resource, Err(api_error())), Err(api_error()));
}

#[test]
fn resource_without_a_name_is_refused() {
    let mut resource = user(Some(1), None);
    resource.metadata.name = None;
    resource.metadata.namespace = None;
    let context = context();
    assert_eq!(context.handle_apply(&resource), Err(Error::UnnamedObject));
    assert_eq!(
        context.invite_user(&resource, Ok(account("u1", UserOrgMembershipStatus::Pending))),
        Err(Error::UnnamedObject)
    );
    assert_eq!(resource.try_name(), Err(Error::UnnamedObject));
}

#[test]
fn resource_without_a_namespace_is_refused() {
    let mut resource = user(Some(3), Some(known("u1", Some(3))));
    resource.metadata.namespace = None;
    let refused = || {
        Error::UserInput(
            "Expected resource to be namespaced. Can't deploy to an unknown namespace.".to_string(),
        )
    };
    let context = context();
    assert_eq!(context.handle_apply(&resource), Err(refused()));
    assert_eq!(
        context.sync_status(&resource, Ok(account("u1", UserOrgMembershipStatus::Active))),
        Err(refused())
    );
    assert_eq!(context.update_user(&resource, Err(api_error())), Err(refused()));
    assert_eq!(context.recover_user(&resource, Ok(None)), Err(refused()));
    assert_eq!(resource.try_name(), Ok("alice"));
    assert_eq!(resource.try_namespace(), Err(refused()));
    assert_eq!(resource.identity_error(), Some(refused()));
}

#[test]
fn status_that_cannot_be_written_fails_the_reconcile() {
    let resource = user(Some(1), None);
    let update = context()
        .invite_user(&resource, Ok(account("u1", UserOrgMembershipStatus::Pending)))
        .unwrap();
    assert_eq!(
        update.written(Err(Error::K8s("conflict".to_string()))),
        Err(Error::K8s("conflict".to_string()))
    );
}

#[test]
fn membership_of_another_kind_is_kept() {
    let resource = user(Some(3), Some(known("u1", Some(3))));
    let update = context()
        .sync_status(
            &resource,
            Ok(account("u1", UserOrgMembershipStatus::Other("SUSPENDED".to_string()))),
        )
        .unwrap();
    assert_eq!(
        update.status.membership_status,
        Some(UserOrgMembershipStatus::Other("SUSPENDED".to_string()))
    );
}

#[test]
fn finalizer_of_the_context() {
    assert_eq!(context().finalizer(), "atlasusers.moertel.com/finalizer");
}
