use relay_core::ServiceError;
use relay_core::users::AdminPostBody;
use relay_core::users::AdminUpdateBody;
use relay_core::users::add_if_not_contains;
use relay_core::users::vec_contains_string;
use relay_core::hashing::hash_password;

#[test]
fn add_if_not_contains_appends_absent_item() {
    let mut list = vec!["chat".to_string()];
    add_if_not_contains(&mut list, "discord".to_string());
    assert_eq!(list, vec!["chat".to_string(), "discord".to_string()]);
}

#[test]
fn add_if_not_contains_keeps_present_item() {
    let mut list = vec!["discord".to_string(), "chat".to_string()];
    add_if_not_contains(&mut list, "discord".to_string());
    assert_eq!(list, vec!["discord".to_string(), "chat".to_string()]);
}

#[test]
fn vec_contains_string_finds_exact_matches_only() {
    let list = vec!["chat".to_string(), "alerts".to_string()];
    assert!(vec_contains_string(&list, &"chat".to_string()));
    assert!(!vec_contains_string(&list, &"Chat".to_string()));
    assert!(!vec_contains_string(&list, &"billing".to_string()));
}

#[test]
fn prepare_user_hashes_token_and_adds_builtin_tag() {
    let body = AdminPostBody {
        server_id: "acme".to_string(),
        server_list: vec!["chat".to_string()],
        auth_token: "secret".to_string(),
    };
    let user = body.prepare_user("salt");
    assert_eq!(user.server_id, "acme");
    assert_eq!(user.server_list, vec!["chat".to_string(), "discord".to_string()]);
    assert_eq!(user.hashed_auth_token, hash_password("secret", "salt"));
}

#[test]
fn prepare_update_rejects_empty_allow_list() {
    let body = AdminUpdateBody {
        server_id: "acme".to_string(),
        server_list: Some(vec![]),
        auth_token: None,
    };
    assert_eq!(body.prepare_update("salt").unwrap_err(), ServiceError::Forbidden);
}

#[test]
fn prepare_update_hashes_token_and_keeps_absent_fields() {
    let body = AdminUpdateBody {
        server_id: "acme".to_string(),
        server_list: None,
        auth_token: Some("fresh".to_string()),
    };
    let prepared = body.prepare_update("salt").unwrap();
    assert_eq!(prepared.server_id, "acme");
    assert!(prepared.server_list.is_none());
    assert_eq!(prepared.auth_token.unwrap(), hash_password("fresh", "salt"));
}

#[test]
fn prepare_update_adds_builtin_tag_to_replacement_list() {
    let body = AdminUpdateBody {
        server_id: "acme".to_string(),
        server_list: Some(vec!["alerts".to_string()]),
        auth_token: None,
    };
    let prepared = body.prepare_update("salt").unwrap();
    assert_eq!(
        prepared.server_list.unwrap(),
        vec!["alerts".to_string(), "discord".to_string()]
    );
    assert!(prepared.auth_token.is_none());
}
