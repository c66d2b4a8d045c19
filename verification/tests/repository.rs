use atlas_user_operator::atlas::error::{Error, StatusCode};
use atlas_user_operator::atlas::repository::{
    handle_error, AtlasUserRepository, Disposition, Method, RemoteCall,
    ATLAS_API_CONTENT_TYPE_2025_02_19, ATLAS_API_V2_BASE_URL,
};
use atlas_user_operator::atlas::user_request::UserRequest;
use atlas_user_operator::atlas::user_response::UserResponse;
use atlas_user_operator::crd::{AtlasUserSpec, Role, RoleName, RoleScope, UserOrgMembershipStatus};

fn spec() -> AtlasUserSpec {
    AtlasUserSpec {
        org_id: "o1".to_string(),
        username: "a@x.com".to_string(),
        roles: vec![
            Role { scope: RoleScope::Organization, role_name: RoleName::OrgReadOnly },
            Role {
                scope: RoleScope::Project { group_id: "g1".to_string() },
                role_name: RoleName::GroupOwner,
            },
        ],
        team_ids: vec!["t1".to_string(), "t2".to_string()],
    }
}

fn account(id: &str, username: &str) -> UserResponse {
    UserResponse {
        id: id.to_string(),
        org_membership_status: UserOrgMembershipStatus::Active,
        roles: vec![],
        team_ids: vec![],
        username: username.to_string(),
    }
}

fn status(code: u16) -> StatusCode {
    StatusCode::from_u16(code).unwrap()
}

#[test]
fn invitation_carries_the_name() {
    let spec = spec();
    let request = UserRequest::for_invite(&spec);
    assert_eq!(request.username, Some("a@x.com"));
    assert_eq!(request.roles, &spec.roles);
    assert_eq!(request.team_ids, &["t1".to_string(), "t2".to_string()]);
}

#[test]
fn update_carries_no_name() {
    let spec = spec();
    let request = UserRequest::for_update(&spec);
    assert_eq!(request.username, None);
    assert_eq!(request.roles, &spec.roles);
    assert_eq!(request.team_ids, &["t1".to_string(), "t2".to_string()]);
}

#[test]
fn where_the_calls_go() {
    assert_eq!(ATLAS_API_V2_BASE_URL, "https://cloud.mongodb.com/api/atlas/v2");
    assert_eq!(ATLAS_API_CONTENT_TYPE_2025_02_19, "application/vnd.atlas.2025-02-19+json");
    assert_eq!(
        AtlasUserRepository::users_url("o1"),
        "https://cloud.mongodb.com/api/atlas/v2/orgs/o1/users"
    );
    assert_eq!(
        AtlasUserRepository::user_url("o1", "u1"),
        "https://cloud.mongodb.com/api/atlas/v2/orgs/o1/users/u1"
    );
    let spec = spec();
    let invite = RemoteCall::Invite { org_id: "o1", request: UserRequest::for_invite(&spec) };
    let update =
        RemoteCall::Update { org_id: "o1", user_id: "u1", request: UserRequest::for_update(&spec) };
    let get = RemoteCall::Get { org_id: "o1", user_id: "u1" };
    let delete = RemoteCall::Delete { org_id: "o1", user_id: "u1" };
    let find = RemoteCall::FindByUsername { org_id: "o1", username: "a@x.com" };
    let users = "https://cloud.mongodb.com/api/atlas/v2/orgs/o1/users";
    let user = "https://cloud.mongodb.com/api/atlas/v2/orgs/o1/users/u1";
    assert_eq!(AtlasUserRepository::url(&invite), users);
    assert_eq!(AtlasUserRepository::url(&update), user);
    assert_eq!(AtlasUserRepository::url(&get), user);
    assert_eq!(AtlasUserRepository::url(&delete), user);
    assert_eq!(AtlasUserRepository::url(&find), users);
    assert_eq!(AtlasUserRepository::method(&invite), Method::Post);
    assert_eq!(AtlasUserRepository::method(&update), Method::Patch);
    assert_eq!(AtlasUserRepository::method(&get), Method::Get);
    assert_eq!(AtlasUserRepository::method(&delete), Method::Delete);
    assert_eq!(AtlasUserRepository::method(&find), Method::Get);
    assert_eq!(AtlasUserRepository::body(&invite), Some(UserRequest::for_invite(&spec)));
    assert_eq!(AtlasUserRepository::body(&update), Some(UserRequest::for_update(&spec)));
    assert_eq!(AtlasUserRepository::body(&get), None);
    assert_eq!(AtlasUserRepository::body(&delete), None);
    assert_eq!(AtlasUserRepository::body(&find), None);
}

#[test]
fn what_a_status_means_for_each_call() {
    let spec = spec();
    let invite = RemoteCall::Invite { org_id: "o1", request: UserRequest::for_invite(&spec) };
    let update =
        RemoteCall::Update { org_id: "o1", user_id: "u1", request: UserRequest::for_update(&spec) };
    let get = RemoteCall::Get { org_id: "o1", user_id: "u1" };
    let delete = RemoteCall::Delete { org_id: "o1", user_id: "u1" };
    let find = RemoteCall::FindByUsername { org_id: "o1", username: "a@x.com" };

    assert_eq!(AtlasUserRepository::disposition(&invite, status(200)), Disposition::Body);
    assert_eq!(AtlasUserRepository::disposition(&invite, status(201)), Disposition::Body);
    assert_eq!(AtlasUserRepository::disposition(&invite, status(204)), Disposition::Rejected);
    assert_eq!(AtlasUserRepository::disposition(&invite, status(404)), Disposition::Rejected);

    assert_eq!(AtlasUserRepository::disposition(&update, status(200)), Disposition::Body);
    assert_eq!(AtlasUserRepository::disposition(&update, status(201)), Disposition::Rejected);
    assert_eq!(AtlasUserRepository::disposition(&update, status(404)), Disposition::Rejected);

    assert_eq!(AtlasUserRepository::disposition(&get, status(200)), Disposition::Body);
    assert_eq!(AtlasUserRepository::disposition(&get, status(404)), Disposition::NotFound);
    assert_eq!(AtlasUserRepository::disposition(&get, status(500)), Disposition::Rejected);

    assert_eq!(AtlasUserRepository::disposition(&delete, status(200)), Disposition::Empty);
    assert_eq!(AtlasUserRepository::disposition(&delete, status(204)), Disposition::Empty);
    assert_eq!(AtlasUserRepository::disposition(&delete, status(404)), Disposition::Rejected);
    assert_eq!(AtlasUserRepository::disposition(&delete, status(201)), Disposition::Rejected);

    assert_eq!(AtlasUserRepository::disposition(&find, status(200)), Disposition::Body);
    assert_eq!(AtlasUserRepository::disposition(&find, status(404)), Disposition::Rejected);
    assert_eq!(AtlasUserRepository::disposition(&find, status(401)), Disposition::Rejected);
}

#[test]
fn failures_of_a_call() {
    assert_eq!(
        handle_error(status(401), "who are you".to_string()),
        Error::Api { status: status(401), message: "who are you".to_string() }
    );
    assert_eq!(
        AtlasUserRepository::not_found("o1", "u1"),
        Error::AtlasUserNotFound { user_id: "u1".to_string(), org_id: "o1".to_string() }
    );
}

#[test]
fn first_account_of_the_name_is_found() {
    let listed = vec![
        account("u1", "b@x.com"),
        account("u2", "a@x.com"),
        account("u3", "a@x.com"),
    ];
    assert_eq!(
        AtlasUserRepository::find_atlas_user_by_username(listed, "a@x.com"),
        Some(account("u2", "a@x.com"))
    );
}

#[test]
fn no_account_of_the_name_is_none() {
    let listed = vec![account("u1", "b@x.com"), account("u2", "A@x.com")];
    assert_eq!(AtlasUserRepository::find_atlas_user_by_username(listed, "a@x.com"), None);
    assert_eq!(AtlasUserRepository::find_atlas_user_by_username(vec![], "a@x.com"), None);
}
