use atlas_user_operator::atlas::context::{AtlasUserContext, Cleanup, StatusUpdate};
use atlas_user_operator::atlas::error::{Error, StatusCode};
use atlas_user_operator::config::AtlasUserConfig;
use atlas_user_operator::crd::{
    AtlasUser, AtlasUserSpec, AtlasUserStatus, Metadata, UserOrgMembershipStatus,
};
use atlas_user_operator::k8s::{Action, Interval};

fn deleting(status: Option<AtlasUserStatus>) -> AtlasUser {
    AtlasUser {
        metadata: Metadata {
            name: Some("alice".to_string()),
            namespace: Some("default".to_string()),
            generation: Some(7),
            deletion_timestamp: Some("2024-05-01T10:00:00Z".to_string()),
            finalizers: vec!["atlasusers.moertel.com/finalizer".to_string()],
        },
        spec: AtlasUserSpec {
            org_id: "o1".to_string(),
            username: "a@x.com".to_string(),
            roles: vec![],
            team_ids: vec!["t1".to_string()],
        },
        status,
    }
}

fn known() -> AtlasUserStatus {
    AtlasUserStatus {
        user_id: Some("u1".to_string()),
        membership_status: Some(UserOrgMembershipStatus::Active),
        error: Some("earlier failure".to_string()),
        observed_generation: Some(6),
    }
}

fn enabled() -> AtlasUserContext {
    AtlasUserContext::new(AtlasUserConfig {
        requeue_duration: Interval { secs: 60, nanos: 0 },
        safe_to_delete: true,
    })
}

#[test]
fn disabled_cleanup_asks_nothing() {
    let context = AtlasUserContext::new(AtlasUserConfig::default());
    assert_eq!(
        context.handle_cleanup(&deleting(Some(known()))),
        Ok(Cleanup::Skip(Action::AwaitChange))
    );
    assert_eq!(context.handle_cleanup(&deleting(None)), Ok(Cleanup::Skip(Action::AwaitChange)));
}

#[test]
fn disabled_cleanup_of_a_resource_without_namespace_is_refused() {
    let context = AtlasUserContext::new(AtlasUserConfig::default());
    let mut resource = deleting(Some(known()));
    resource.metadata.namespace = None;
    assert_eq!(
        context.handle_cleanup(&resource),
        Err(Error::UserInput(
            "Expected resource to be namespaced. Can't deploy to an unknown namespace."
                .to_string()
        ))
    );
}

#[test]
fn cleanup_without_account_is_a_user_input_error() {
    let refused = Error::UserInput("Cannot delete user without user_id in status".to_string());
    assert_eq!(enabled().handle_cleanup(&deleting(None)), Err(refused));
    let nameless = AtlasUserStatus { user_id: None, ..known() };
    assert_eq!(
        enabled().handle_cleanup(&deleting(Some(nameless))),
        Err(Error::UserInput("Cannot delete user without user_id in status".to_string()))
    );
}

#[test]
fn cleanup_deletes_the_account() {
    let resource = deleting(Some(known()));
    let context = enabled();
    assert_eq!(
        context.handle_cleanup(&resource),
        Ok(Cleanup::Delete { org_id: "o1", user_id: "u1" })
    );
    let update = context.delete_user(&resource, Ok(())).unwrap();
    assert_eq!(
        update,
        StatusUpdate {
            status: AtlasUserStatus {
                user_id: Some("u1".to_string()),
                membership_status: Some(UserOrgMembershipStatus::Deleted),
                error: None,
                observed_generation: Some(7),
            },
            action: Action::AwaitChange,
        }
    );
    assert_eq!(update.written(Ok(())), Ok(Action::AwaitChange));
}

#[test]
fn failed_deletion_writes_nothing() {
    let resource = deleting(Some(known()));
    let failure =
        Error::Api { status: StatusCode::from_u16(403).unwrap(), message: "no".to_string() };
    assert_eq!(
        enabled().delete_user(
            &resource,
            Err(Error::Api { status: StatusCode::from_u16(403).unwrap(), message: "no".to_string() })
        ),
        Err(failure)
    );
}
