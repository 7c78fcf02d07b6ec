use task_manager::auth::{
    auth_success, authenticate, prepare_registration, registration_insert_outcome,
    validate_registration, AuthFailure, InsertOutcome, UserLookup,
};
use task_manager::models::{RegisterRequest, User};

fn request(username: &str, password: &str) -> RegisterRequest {
    RegisterRequest { username: username.to_string(), password: password.to_string() }
}

fn user_with_hash(hash: &str) -> User {
    User::new(
        "u-1".to_string(),
        "alice".to_string(),
        hash.to_string(),
        "2024-01-01T00:00:00Z".to_string(),
    )
}

#[test]
fn registration_rejects_blank_username_first() {
    assert_eq!(validate_registration(&request("", "123")), Err(AuthFailure::UsernameEmpty));
    assert_eq!(validate_registration(&request("  \t", "secret123")), Err(AuthFailure::UsernameEmpty));
}

#[test]
fn registration_rejects_short_password() {
    assert_eq!(validate_registration(&request("bob", "12345")), Err(AuthFailure::PasswordTooShort));
    assert_eq!(validate_registration(&request("bob", "123456")), Ok(()));
    // six bytes, four characters
    assert_eq!(validate_registration(&request("bob", "\u{e9}\u{e9}ab")), Ok(()));
}

#[test]
fn registered_password_logs_in() {
    let hash = prepare_registration(&request("alice", "correct horse")).unwrap();
    assert_ne!(hash, "correct horse");
    assert_eq!(hash.len(), 60);
    assert!(hash.starts_with("$2b$12$"));
    assert!(hash[7..].chars().all(|c| c == '.' || c == '/' || c.is_ascii_alphanumeric()));
    let user = user_with_hash(&hash);
    assert_eq!(authenticate(UserLookup::Found(user.clone()), "correct horse"), Ok(user));
}

#[test]
fn wrong_password_and_unknown_user_look_alike() {
    let hash = prepare_registration(&request("alice", "correct horse")).unwrap();
    let wrong = authenticate(UserLookup::Found(user_with_hash(&hash)), "battery staple");
    let missing = authenticate(UserLookup::Missing, "battery staple");
    assert_eq!(wrong, Err(AuthFailure::InvalidCredentials));
    assert_eq!(wrong, missing);
    let f = wrong.unwrap_err();
    assert_eq!(f.status_code(), 401);
    assert_eq!(f.error_message().error, "Invalid username or password");
}

#[test]
fn login_failures_of_storage_and_hash() {
    assert_eq!(authenticate(UserLookup::Failed, "pw"), Err(AuthFailure::LookupFailed));
    assert_eq!(
        authenticate(UserLookup::Found(user_with_hash("not-a-bcrypt-hash")), "pw"),
        Err(AuthFailure::VerificationFailed)
    );
}

#[test]
fn known_bcrypt_hash_is_checked() {
    let hash = "$2b$04$EGdrhbKUv8Oc9vGiXX0HQOxSg445d458Muh7DAHskb6QbtCvdxcie";
    let user = user_with_hash(hash);
    assert!(authenticate(UserLookup::Found(user.clone()), "correctbatteryhorsestapler").is_ok());
    assert_eq!(
        authenticate(UserLookup::Found(user), "wrong"),
        Err(AuthFailure::InvalidCredentials)
    );
}

#[test]
fn insert_outcomes() {
    assert_eq!(registration_insert_outcome(InsertOutcome::Inserted), Ok(()));
    assert_eq!(
        registration_insert_outcome(InsertOutcome::DatabaseError(
            "UNIQUE constraint failed: users.username".to_string()
        )),
        Err(AuthFailure::UsernameTaken)
    );
    let db = registration_insert_outcome(InsertOutcome::DatabaseError("disk I/O error".to_string()))
        .unwrap_err();
    assert_eq!(db.status_code(), 500);
    assert_eq!(db.error_message().error, "Database error: disk I/O error");
    let other =
        registration_insert_outcome(InsertOutcome::OtherError("pool timed out".to_string())).unwrap_err();
    assert_eq!(other.status_code(), 500);
    assert_eq!(other.error_message().error, "Internal server error: pool timed out");
}

#[test]
fn failure_status_codes_and_texts() {
    let cases = [
        (AuthFailure::UsernameEmpty, 400, "Username cannot be empty"),
        (AuthFailure::PasswordTooShort, 400, "Password must be at least 6 characters"),
        (AuthFailure::PasswordProcessing, 500, "Failed to process password"),
        (AuthFailure::UsernameTaken, 409, "Username already exists"),
        (AuthFailure::InvalidCredentials, 401, "Invalid username or password"),
        (AuthFailure::LookupFailed, 500, "Database error"),
        (AuthFailure::VerificationFailed, 500, "Authentication error"),
        (AuthFailure::TokenGeneration, 500, "Failed to generate authentication token"),
    ];
    for (f, code, text) in cases {
        assert_eq!(f.status_code(), code);
        assert_eq!(f.error_message().error, text);
    }
}

#[test]
fn token_issue_outcome() {
    let user = user_with_hash("h");
    assert_eq!(auth_success(user.clone(), None), Err(AuthFailure::TokenGeneration));
    let r = auth_success(user, Some("tok".to_string())).unwrap();
    assert_eq!(r.token, "tok");
    assert_eq!(r.user.id, "u-1");
    assert_eq!(r.user.username, "alice");
    assert_eq!(r.user.created_at, "2024-01-01T00:00:00Z");
}
