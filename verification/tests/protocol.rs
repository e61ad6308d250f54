use authy::service::{
    api_key_is_valid, generate_api_key, get_user, new_user, register_twice, revoke_api_key,
    revoke_transition, update_user,
};
use authy::{
    ApiKey, DataError, Email, GetUser, Name, NewUser, Password, RevocationStatus, ServiceError,
    Store, UpdateUser,
};

fn request(name: &str, email: &str, password: &str) -> NewUser {
    NewUser {
        email: Email::new(email).unwrap(),
        name: Name::new(name).unwrap(),
        password: Password::new(password).unwrap(),
    }
}

#[test]
fn register_returns_the_stored_user() {
    let mut store = Store::new();
    let user = new_user(request("Ann", "a@x", "secret1"), &mut store).unwrap();
    assert_eq!(user.name.as_str(), "Ann");
    assert_eq!(user.email.as_str(), "a@x");
    assert_eq!(user.password.into_inner(), "secret1");
}

#[test]
fn duplicate_email_conflicts() {
    let mut store = Store::new();
    assert!(new_user(request("Ann", "a@x", "secret1"), &mut store).is_ok());
    let second = new_user(request("Ben", "a@x", "other12"), &mut store);
    assert!(matches!(second, Err(ServiceError::Data(DataError::Conflict))));
}

#[test]
fn register_twice_law_on_concrete_values() {
    let mut store = Store::new();
    let (first, second) = register_twice(
        request("Ann", "a@x", "secret1"),
        request("Ben", "a@x", "other12"),
        &mut store,
    );
    assert!(first.is_ok());
    assert!(matches!(second, Err(ServiceError::Data(DataError::Conflict))));
}

#[test]
fn login_with_correct_credentials() {
    let mut store = Store::new();
    new_user(request("Ann", "a@x", "secret1"), &mut store).unwrap();
    let got = get_user(
        GetUser {
            email: Email::new("a@x").unwrap(),
            password: Some(Password::new("secret1").unwrap()),
        },
        &store,
    )
    .unwrap();
    assert_eq!(got.name.as_str(), "Ann");
    assert_eq!(got.email.as_str(), "a@x");
}

#[test]
fn login_with_wrong_password_is_a_permission_error() {
    let mut store = Store::new();
    new_user(request("Ann", "a@x", "secret1"), &mut store).unwrap();
    let got = get_user(
        GetUser {
            email: Email::new("a@x").unwrap(),
            password: Some(Password::new("wrong99").unwrap()),
        },
        &store,
    );
    assert!(matches!(got, Err(ServiceError::PermissionError(_))));
}

#[test]
fn login_without_password_is_a_permission_error() {
    let mut store = Store::new();
    new_user(request("Ann", "a@x", "secret1"), &mut store).unwrap();
    let got = get_user(GetUser { email: Email::new("a@x").unwrap(), password: None }, &store);
    assert!(matches!(got, Err(ServiceError::PermissionError(_))));
}

#[test]
fn login_with_unknown_email_is_not_found() {
    let store = Store::new();
    let got = get_user(
        GetUser {
            email: Email::new("who@x").unwrap(),
            password: Some(Password::new("secret1").unwrap()),
        },
        &store,
    );
    assert!(matches!(got, Err(ServiceError::NotFound)));
}

#[test]
fn update_name_only_preserves_password() {
    let mut store = Store::new();
    new_user(request("Ann", "a@x", "secret1"), &mut store).unwrap();
    let updated = update_user(
        UpdateUser {
            email: Email::new("a@x").unwrap(),
            name: Some(Name::new("Anne").unwrap()),
            password: None,
        },
        &mut store,
    )
    .unwrap();
    assert_eq!(updated.name.as_str(), "Anne");
    assert_eq!(updated.password.into_inner(), "secret1");
    let got = get_user(
        GetUser {
            email: Email::new("a@x").unwrap(),
            password: Some(Password::new("secret1").unwrap()),
        },
        &store,
    )
    .unwrap();
    assert_eq!(got.name.as_str(), "Anne");
}

#[test]
fn update_password_only_preserves_name() {
    let mut store = Store::new();
    new_user(request("Ann", "a@x", "secret1"), &mut store).unwrap();
    let updated = update_user(
        UpdateUser {
            email: Email::new("a@x").unwrap(),
            name: None,
            password: Some(Password::new("newpw99").unwrap()),
        },
        &mut store,
    )
    .unwrap();
    assert_eq!(updated.name.as_str(), "Ann");
    assert_eq!(updated.password.into_inner(), "newpw99");
}

#[test]
fn update_with_neither_field_leaves_the_row_unchanged() {
    let mut store = Store::new();
    new_user(request("Ann", "a@x", "secret1"), &mut store).unwrap();
    let updated = update_user(
        UpdateUser { email: Email::new("a@x").unwrap(), name: None, password: None },
        &mut store,
    )
    .unwrap();
    assert_eq!(updated.name.as_str(), "Ann");
    assert_eq!(updated.email.as_str(), "a@x");
    assert_eq!(updated.password.into_inner(), "secret1");
}

#[test]
fn update_keeps_the_email_fixed() {
    let mut store = Store::new();
    new_user(request("Ann", "a@x", "secret1"), &mut store).unwrap();
    let updated = update_user(
        UpdateUser {
            email: Email::new("a@x").unwrap(),
            name: Some(Name::new("Anne").unwrap()),
            password: Some(Password::new("newpw99").unwrap()),
        },
        &mut store,
    )
    .unwrap();
    assert_eq!(updated.email.as_str(), "a@x");
}

#[test]
fn update_of_unknown_email_is_not_found() {
    let mut store = Store::new();
    let updated = update_user(
        UpdateUser {
            email: Email::new("who@x").unwrap(),
            name: Some(Name::new("Anne").unwrap()),
            password: None,
        },
        &mut store,
    );
    assert!(matches!(updated, Err(ServiceError::NotFound)));
}

#[test]
fn issued_key_is_valid_until_revoked() {
    let mut store = Store::new();
    let key = generate_api_key(&mut store);
    assert!(api_key_is_valid(key.clone(), &store));
    let status = revoke_api_key(key.clone(), &mut store);
    assert_eq!(status, RevocationStatus::Revoked);
    assert!(!api_key_is_valid(key, &store));
}

#[test]
fn revoking_an_unknown_key_reports_not_found() {
    let mut store = Store::new();
    let key = ApiKey::generate();
    let status = revoke_api_key(key.clone(), &mut store);
    assert_eq!(status, RevocationStatus::NotFound);
    assert!(!api_key_is_valid(key, &store));
}

#[test]
fn revoke_transition_on_an_issued_key() {
    let mut store = Store::new();
    let key = generate_api_key(&mut store);
    let (before, status, after) = revoke_transition(key, &mut store);
    assert!(before);
    assert_eq!(status, RevocationStatus::Revoked);
    assert!(!after);
}

#[test]
fn revoking_one_key_spares_the_others() {
    let mut store = Store::new();
    let keep = generate_api_key(&mut store);
    let gone = generate_api_key(&mut store);
    revoke_api_key(gone, &mut store);
    assert!(api_key_is_valid(keep, &store));
}
