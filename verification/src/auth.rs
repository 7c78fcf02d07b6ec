//! Registration and login: what is checked, what is answered.
use vstd::prelude::*;
use vstd::string::*;

use crate::models::{AuthResponse, ErrorMessage, RegisterRequest, User, UserResponse};
use crate::password::{bcrypt_hash, bcrypt_verify, bcrypt_verify_outcome, is_bcrypt_2b_cost12_hash};
use crate::text::{concat_text, contains, contains_spec, is_blank, is_blank_spec, utf8_len, utf8_len_at_least};

verus! {

/// Why a registration or a login was turned down.
#[derive(Clone, Debug, PartialEq, Eq)]
pub enum AuthFailure {
    /// The username is empty or only whitespace.
    UsernameEmpty,
    /// The password has fewer than six bytes.
    PasswordTooShort,
    /// The password could not be hashed.
    PasswordProcessing,
    /// Another user already has this name.
    UsernameTaken,
    /// The database refused the new user for another reason (its message).
    Database(String),
    /// Storing the new user failed outside the database (the error's message).
    Internal(String),
    /// Unknown user or wrong password: the two are not told apart.
    InvalidCredentials,
    /// Looking the user up failed.
    LookupFailed,
    /// The stored hash could not be checked.
    VerificationFailed,
    /// No token could be issued.
    TokenGeneration,
}

/// The HTTP status of each failure.
pub open spec fn auth_failure_status(f: AuthFailure) -> u16 {
    match f {
        AuthFailure::UsernameEmpty => 400,
        AuthFailure::PasswordTooShort => 400,
        AuthFailure::UsernameTaken => 409,
        AuthFailure::InvalidCredentials => 401,
        _ => 500,
    }
}

/// The error text of each failure.
pub open spec fn auth_failure_text(f: AuthFailure) -> Seq<char> {
    match f {
        AuthFailure::UsernameEmpty => "Username cannot be empty"@,
        AuthFailure::PasswordTooShort => "Password must be at least 6 characters"@,
        AuthFailure::PasswordProcessing => "Failed to process password"@,
        AuthFailure::UsernameTaken => "Username already exists"@,
        AuthFailure::Database(m) => "Database error: "@ + m@,
        AuthFailure::Internal(m) => "Internal server error: "@ + m@,
        AuthFailure::InvalidCredentials => "Invalid username or password"@,
        AuthFailure::LookupFailed => "Database error"@,
        AuthFailure::VerificationFailed => "Authentication error"@,
        AuthFailure::TokenGeneration => "Failed to generate authentication token"@,
    }
}

impl AuthFailure {
    /// The HTTP status code to answer with.
    pub fn status_code(&self) -> (r: u16)
        ensures
            r == auth_failure_status(*self),
    {
        match self {
            AuthFailure::UsernameEmpty => 400,
            AuthFailure::PasswordTooShort => 400,
            AuthFailure::UsernameTaken => 409,
            AuthFailure::InvalidCredentials => 401,
            _ => 500,
        }
    }

    /// The error body to answer with.
    pub fn error_message(&self) -> (r: ErrorMessage)
        ensures
            r.error@ == auth_failure_text(*self),
    {
        let error = match self {
            AuthFailure::UsernameEmpty => String::from_str("Username cannot be empty"),
            AuthFailure::PasswordTooShort => String::from_str(
                "Password must be at least 6 characters",
            ),
            AuthFailure::PasswordProcessing => String::from_str("Failed to process password"),
            AuthFailure::UsernameTaken => String::from_str("Username already exists"),
            AuthFailure::Database(m) => concat_text("Database error: ", m.as_str()),
            AuthFailure::Internal(m) => concat_text("Internal server error: ", m.as_str()),
            AuthFailure::InvalidCredentials => String::from_str("Invalid username or password"),
            AuthFailure::LookupFailed => String::from_str("Database error"),
            AuthFailure::VerificationFailed => String::from_str("Authentication error"),
            AuthFailure::TokenGeneration => String::from_str(
                "Failed to generate authentication token",
            ),
        };
        ErrorMessage { error }
    }
}

/// The rule on registration input: a username that is not blank, then a
/// password of at least six bytes.
pub open spec fn registration_check(username: Seq<char>, password: Seq<char>) -> Result<
    (),
    AuthFailure,
> {
    if is_blank_spec(username) {
        Err(AuthFailure::UsernameEmpty)
    } else if utf8_len(password) < 6 {
        Err(AuthFailure::PasswordTooShort)
    } else {
        Ok(())
    }
}

/// Checks a registration request's input.
pub fn validate_registration(req: &RegisterRequest) -> (r: Result<(), AuthFailure>)
    ensures
        r == registration_check(req.username@, req.password@),
        is_blank_spec(req.username@) ==> r == Err::<(), AuthFailure>(AuthFailure::UsernameEmpty),
        !is_blank_spec(req.username@) && utf8_len(req.password@) < 6 ==> r == Err::<
            (),
            AuthFailure,
        >(AuthFailure::PasswordTooShort),
        r is Ok <==> (!is_blank_spec(req.username@) && utf8_len(req.password@) >= 6),
{
    if is_blank(req.username.as_str()) {
        return Err(AuthFailure::UsernameEmpty);
    }
    if !utf8_len_at_least(req.password.as_str(), 6) {
        return Err(AuthFailure::PasswordTooShort);
    }
    Ok(())
}

/// Checks a registration request and hashes its password with bcrypt.
/// The hash is what the new user record stores.
pub fn prepare_registration(req: &RegisterRequest) -> (r: Result<String, AuthFailure>)
    ensures
        registration_check(req.username@, req.password@) matches Err(f) ==> r == Err::<
            String,
            AuthFailure,
        >(f),
        registration_check(req.username@, req.password@) is Ok ==> (r is Ok || r == Err::<
            String,
            AuthFailure,
        >(AuthFailure::PasswordProcessing)),
        r matches Ok(h) ==> bcrypt_verify_outcome(req.password@, h@) == Some(true),
        r matches Ok(h) ==> is_bcrypt_2b_cost12_hash(h@),
{
    validate_registration(req)?;
    match bcrypt_hash(req.password.as_str()) {
        Ok(h) => Ok(h),
        Err(_) => Err(AuthFailure::PasswordProcessing),
    }
}

/// How storing a new user ended, as the database layer reports it.
#[derive(Clone, Debug, PartialEq, Eq)]
pub enum InsertOutcome {
    /// The row was written.
    Inserted,
    /// The database refused the row, with this message.
    DatabaseError(String),
    /// The write failed before the database answered, with this message.
    OtherError(String),
}

/// The decision on a stored (or refused) new user: a refusal whose message
/// names a UNIQUE constraint means the username is taken.
pub open spec fn insert_decision(o: InsertOutcome) -> Result<(), AuthFailure> {
    match o {
        InsertOutcome::Inserted => Ok(()),
        InsertOutcome::DatabaseError(m) => if contains_spec(m@, "UNIQUE"@) {
            Err(AuthFailure::UsernameTaken)
        } else {
            Err(AuthFailure::Database(m))
        },
        InsertOutcome::OtherError(m) => Err(AuthFailure::Internal(m)),
    }
}

/// Decides what storing the new user means for the registration.
pub fn registration_insert_outcome(o: InsertOutcome) -> (r: Result<(), AuthFailure>)
    ensures
        r == insert_decision(o),
        o is Inserted ==> r == Ok::<(), AuthFailure>(()),
        match o {
            InsertOutcome::DatabaseError(m) => {
                &&& contains_spec(m@, "UNIQUE"@) ==> r == Err::<(), AuthFailure>(
                    AuthFailure::UsernameTaken,
                )
                &&& !contains_spec(m@, "UNIQUE"@) ==> r == Err::<(), AuthFailure>(
                    AuthFailure::Database(m),
                )
            },
            InsertOutcome::OtherError(m) => r == Err::<(), AuthFailure>(AuthFailure::Internal(m)),
            InsertOutcome::Inserted => true,
        },
{
    match o {
        InsertOutcome::Inserted => Ok(()),
        InsertOutcome::DatabaseError(m) => {
            if contains(m.as_str(), "UNIQUE") {
                Err(AuthFailure::UsernameTaken)
            } else {
                Err(AuthFailure::Database(m))
            }
        },
        InsertOutcome::OtherError(m) => Err(AuthFailure::Internal(m)),
    }
}

/// The answer once a user is registered or logged in: the token issued for
/// the user, or a failure when none could be issued.
pub fn auth_success(user: User, token: Option<String>) -> (r: Result<AuthResponse, AuthFailure>)
    ensures
        token is None ==> r == Err::<AuthResponse, AuthFailure>(AuthFailure::TokenGeneration),
        token matches Some(t) ==> (r matches Ok(a) && a.token == t && a.user.id == user.id
            && a.user.username == user.username && a.user.created_at == user.created_at),
{
    match token {
        None => Err(AuthFailure::TokenGeneration),
        Some(t) => Ok(AuthResponse { token: t, user: UserResponse::from_user(user) }),
    }
}

/// The result of looking a user up by name.
#[derive(Clone, Debug, PartialEq, Eq)]
pub enum UserLookup {
    Found(User),
    Missing,
    Failed,
}

/// The login rule: the user must exist and the password must match the
/// stored bcrypt hash. An unknown user and a wrong password get the same
/// answer.
pub open spec fn login_decision(lookup: UserLookup, password: Seq<char>) -> Result<
    User,
    AuthFailure,
> {
    match lookup {
        UserLookup::Failed => Err(AuthFailure::LookupFailed),
        UserLookup::Missing => Err(AuthFailure::InvalidCredentials),
        UserLookup::Found(u) => match bcrypt_verify_outcome(password, u.password_hash@) {
            Some(true) => Ok(u),
            Some(false) => Err(AuthFailure::InvalidCredentials),
            None => Err(AuthFailure::VerificationFailed),
        },
    }
}

/// Checks a login: the looked-up user and the password given.
pub fn authenticate(lookup: UserLookup, password: &str) -> (r: Result<User, AuthFailure>)
    ensures
        r == login_decision(lookup, password@),
        lookup is Missing ==> r == Err::<User, AuthFailure>(AuthFailure::InvalidCredentials),
        lookup is Failed ==> r == Err::<User, AuthFailure>(AuthFailure::LookupFailed),
        match lookup {
            UserLookup::Found(u) => {
                &&& r is Ok <==> bcrypt_verify_outcome(password@, u.password_hash@) == Some(true)
                &&& r is Ok ==> r == Ok::<User, AuthFailure>(u)
                &&& bcrypt_verify_outcome(password@, u.password_hash@) == Some(false) ==> r
                    == Err::<User, AuthFailure>(AuthFailure::InvalidCredentials)
                &&& bcrypt_verify_outcome(password@, u.password_hash@) is None ==> r == Err::<
                    User,
                    AuthFailure,
                >(AuthFailure::VerificationFailed)
            },
            _ => true,
        },
{
    match lookup {
        UserLookup::Failed => Err(AuthFailure::LookupFailed),
        UserLookup::Missing => Err(AuthFailure::InvalidCredentials),
        UserLookup::Found(u) => {
            match bcrypt_verify(password, u.password_hash.as_str()) {
                Ok(true) => Ok(u),
                Ok(false) => Err(AuthFailure::InvalidCredentials),
                Err(_) => Err(AuthFailure::VerificationFailed),
            }
        },
    }
}


/// A password whose bcrypt hash the user record holds, as registration
/// stores it, is accepted at login for that user.
pub proof fn lemma_registered_password_accepted(user: User, password: Seq<char>)
    requires
        bcrypt_verify_outcome(password, user.password_hash@) == Some(true),
    ensures
        login_decision(UserLookup::Found(user), password) == Ok::<User, AuthFailure>(user),
{
}

/// A wrong password for an existing user is answered exactly as a user
/// that does not exist: 401 with the same text.
pub proof fn lemma_login_does_not_reveal_accounts(user: User, password: Seq<char>)
    requires
        bcrypt_verify_outcome(password, user.password_hash@) == Some(false),
    ensures
        login_decision(UserLookup::Found(user), password) == login_decision(
            UserLookup::Missing,
            password,
        ),
        login_decision(UserLookup::Missing, password) == Err::<User, AuthFailure>(
            AuthFailure::InvalidCredentials,
        ),
        auth_failure_status(AuthFailure::InvalidCredentials) == 401,
{
}


/// Registration input is accepted exactly when the username is not blank
/// and the password has at least six UTF-8 bytes; a blank username is
/// reported first, then a short password, however short (empty included).
pub proof fn lemma_registration_input_rule(username: Seq<char>, password: Seq<char>)
    ensures
        registration_check(username, password) is Ok <==> (!is_blank_spec(username) && utf8_len(
            password,
        ) >= 6),
        is_blank_spec(username) ==> registration_check(username, password) == Err::<
            (),
            AuthFailure,
        >(AuthFailure::UsernameEmpty),
        !is_blank_spec(username) && utf8_len(password) < 6 ==> registration_check(
            username,
            password,
        ) == Err::<(), AuthFailure>(AuthFailure::PasswordTooShort),
        auth_failure_status(AuthFailure::UsernameEmpty) == 400,
        auth_failure_status(AuthFailure::PasswordTooShort) == 400,
{
}

/// A database refusal whose message contains `UNIQUE` anywhere means the
/// username is taken (409); any other refusal is a database error (500)
/// that quotes the message; a stored row goes on.
pub proof fn lemma_unique_refusal_means_taken(m: String)
    ensures
        contains_spec(m@, "UNIQUE"@) ==> insert_decision(InsertOutcome::DatabaseError(m)) == Err::<
            (),
            AuthFailure,
        >(AuthFailure::UsernameTaken),
        !contains_spec(m@, "UNIQUE"@) ==> insert_decision(InsertOutcome::DatabaseError(m))
            == Err::<(), AuthFailure>(AuthFailure::Database(m)),
        insert_decision(InsertOutcome::Inserted) == Ok::<(), AuthFailure>(()),
        insert_decision(InsertOutcome::OtherError(m)) == Err::<(), AuthFailure>(
            AuthFailure::Internal(m),
        ),
        auth_failure_status(AuthFailure::UsernameTaken) == 409,
        auth_failure_text(AuthFailure::Database(m)) == "Database error: "@ + m@,
{
}

/// Every failure answers with the status the service documents for it.
pub proof fn lemma_failure_statuses()
    ensures
        auth_failure_status(AuthFailure::UsernameEmpty) == 400,
        auth_failure_status(AuthFailure::PasswordTooShort) == 400,
        auth_failure_status(AuthFailure::PasswordProcessing) == 500,
        auth_failure_status(AuthFailure::UsernameTaken) == 409,
        forall|m: String| #[trigger] auth_failure_status(AuthFailure::Database(m)) == 500,
        forall|m: String| #[trigger] auth_failure_status(AuthFailure::Internal(m)) == 500,
        auth_failure_status(AuthFailure::InvalidCredentials) == 401,
        auth_failure_status(AuthFailure::LookupFailed) == 500,
        auth_failure_status(AuthFailure::VerificationFailed) == 500,
        auth_failure_status(AuthFailure::TokenGeneration) == 500,
{
}


/// Login succeeds only for an existing user whose stored hash accepts the
/// password, and then yields that very user; every other case fails.
pub proof fn lemma_login_rule(lookup: UserLookup, password: Seq<char>)
    ensures
        login_decision(lookup, password) matches Ok(u) ==> (lookup == UserLookup::Found(u)
            && bcrypt_verify_outcome(password, u.password_hash@) == Some(true)),
        lookup == UserLookup::Missing ==> login_decision(lookup, password) == Err::<
            User,
            AuthFailure,
        >(AuthFailure::InvalidCredentials),
        lookup == UserLookup::Failed ==> login_decision(lookup, password) == Err::<
            User,
            AuthFailure,
        >(AuthFailure::LookupFailed),
{
}

/// The error texts the service answers with.
pub proof fn lemma_failure_texts()
    ensures
        auth_failure_text(AuthFailure::UsernameEmpty) == "Username cannot be empty"@,
        auth_failure_text(AuthFailure::PasswordTooShort)
            == "Password must be at least 6 characters"@,
        auth_failure_text(AuthFailure::PasswordProcessing) == "Failed to process password"@,
        auth_failure_text(AuthFailure::UsernameTaken) == "Username already exists"@,
        forall|m: String| #[trigger] auth_failure_text(AuthFailure::Database(m))
            == "Database error: "@ + m@,
        forall|m: String| #[trigger] auth_failure_text(AuthFailure::Internal(m))
            == "Internal server error: "@ + m@,
        auth_failure_text(AuthFailure::InvalidCredentials) == "Invalid username or password"@,
        auth_failure_text(AuthFailure::LookupFailed) == "Database error"@,
        auth_failure_text(AuthFailure::VerificationFailed) == "Authentication error"@,
        auth_failure_text(AuthFailure::TokenGeneration)
            == "Failed to generate authentication token"@,
{
}

} // verus!
