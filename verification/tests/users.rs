use chat_api::error::ApiError;
use chat_api::users::UserStore;

fn s(text: &str) -> String {
    text.to_string()
}

#[test]
fn registration_then_login() {
    let mut users = UserStore::new();
    assert_eq!(users.register(s("ann"), s("secret")), Ok(()));
    assert!(users.login(s("ann"), s("secret")));
}

#[test]
fn wrong_password_is_refused() {
    let mut users = UserStore::new();
    users.register(s("ann"), s("secret")).unwrap();
    assert!(!users.login(s("ann"), s("Secret")));
    assert!(!users.login(s("ann"), s("secret ")));
    assert!(!users.login(s("ann"), s("")));
}

#[test]
fn unknown_user_is_refused() {
    let mut users = UserStore::new();
    assert!(!users.login(s("ann"), s("secret")));
    assert!(!users.login(s(""), s("")));
    users.register(s("ann"), s("secret")).unwrap();
    assert!(!users.login(s("bob"), s("secret")));
    assert!(!users.login(s("Ann"), s("secret")));
}

#[test]
fn second_registration_fails_and_keeps_the_first_password() {
    let mut users = UserStore::new();
    assert_eq!(users.register(s("ann"), s("first")), Ok(()));
    assert_eq!(users.register(s("ann"), s("second")), Err(ApiError::AlreadyExists));
    assert!(users.login(s("ann"), s("first")));
    assert!(!users.login(s("ann"), s("second")));
}

#[test]
fn second_registration_with_the_same_password_fails_too() {
    let mut users = UserStore::new();
    users.register(s("ann"), s("same")).unwrap();
    assert_eq!(users.register(s("ann"), s("same")), Err(ApiError::AlreadyExists));
    assert!(users.login(s("ann"), s("same")));
}

#[test]
fn users_do_not_share_passwords() {
    let mut users = UserStore::new();
    users.register(s("ann"), s("a")).unwrap();
    users.register(s("bob"), s("b")).unwrap();
    assert!(users.login(s("ann"), s("a")));
    assert!(users.login(s("bob"), s("b")));
    assert!(!users.login(s("ann"), s("b")));
    assert!(!users.login(s("bob"), s("a")));
}

#[test]
fn empty_username_and_password_can_register() {
    let mut users = UserStore::new();
    assert_eq!(users.register(s(""), s("")), Ok(()));
    assert!(users.login(s(""), s("")));
    assert_eq!(users.register(s(""), s("x")), Err(ApiError::AlreadyExists));
}

#[test]
fn error_messages() {
    assert_eq!(ApiError::AlreadyExists.message(), "User already exists");
    assert_eq!(ApiError::UnsupportedProvider.message(), "unknown provider");
    assert_eq!(ApiError::UpstreamError(s("connection refused")).message(), "connection refused");
}
