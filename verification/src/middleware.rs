//! The authentication guard in front of the API routes.
use vstd::prelude::*;
use vstd::string::*;

use crate::text::{has_prefix, skip_chars, starts_with};

verus! {

/// What the guard does with a request.
#[derive(Clone, Debug, PartialEq, Eq)]
pub enum AuthDecision {
    /// A public route: let it through without a token.
    Public,
    /// No usable `Authorization` header: answer 401.
    Reject,
    /// Check this bearer token; let the request through only if it is valid.
    Verify(String),
}

/// Routes open without a token: those that begin with `/api/register`,
/// `/api/login` or `/health`.
pub open spec fn is_public_path(path: Seq<char>) -> bool {
    ||| has_prefix(path, "/api/register"@)
    ||| has_prefix(path, "/api/login"@)
    ||| has_prefix(path, "/health"@)
}

/// The bearer token an `Authorization` header presents: what follows
/// `Bearer `, or nothing when the header is absent or of another scheme.
pub open spec fn presented_token(authorization: Option<Seq<char>>) -> Option<Seq<char>> {
    match authorization {
        Some(h) => if has_prefix(h, "Bearer "@) {
            Some(h.skip(7))
        } else {
            None
        },
        None => None,
    }
}

/// The guard's rule: a public path passes; any other path needs a bearer
/// token, which is then checked.
pub open spec fn guard_decides(
    path: Seq<char>,
    authorization: Option<Seq<char>>,
    d: AuthDecision,
) -> bool {
    if is_public_path(path) {
        d == AuthDecision::Public
    } else {
        match presented_token(authorization) {
            None => d == AuthDecision::Reject,
            Some(t) => d matches AuthDecision::Verify(x) && x@ == t,
        }
    }
}

/// The header text as a sequence of characters.
pub open spec fn header_text(authorization: Option<&str>) -> Option<Seq<char>> {
    match authorization {
        Some(h) => Some(h@),
        None => None,
    }
}

/// Decides on a request from its path and the text of its `Authorization`
/// header (`None` when absent or not visible ASCII).
pub fn authorize_request(path: &str, authorization: Option<&str>) -> (r: AuthDecision)
    ensures
        guard_decides(path@, header_text(authorization), r),
        is_public_path(path@) ==> r == AuthDecision::Public,
        !is_public_path(path@) && authorization is None ==> r == AuthDecision::Reject,
        !is_public_path(path@) && (authorization matches Some(h) && has_prefix(h@, "Bearer "@))
            ==> (r matches AuthDecision::Verify(x) && x@ == authorization->0@.skip(7)),
        !is_public_path(path@) && (authorization matches Some(h) && !has_prefix(h@, "Bearer "@))
            ==> r == AuthDecision::Reject,
{
    if starts_with(path, "/api/register") || starts_with(path, "/api/login") || starts_with(
        path,
        "/health",
    ) {
        return AuthDecision::Public;
    }
    match authorization {
        None => AuthDecision::Reject,
        Some(h) => {
            if starts_with(h, "Bearer ") {
                proof {
                    reveal_strlit("Bearer ");
                }
                AuthDecision::Verify(skip_chars(h, 7))
            } else {
                AuthDecision::Reject
            }
        },
    }
}

/// How a request leaves the guard.
#[derive(Clone, Debug, PartialEq, Eq)]
pub enum Admission {
    /// Passed on without a user (a public path).
    Anonymous,
    /// Passed on as the user the token names.
    Authenticated(String),
    /// Answered 401 and not passed on.
    Unauthorized,
}

/// The guard's last step: `subject` is the user id that checking the
/// token gave (`None` when the token did not verify, or none was checked).
pub fn guard_outcome(decision: AuthDecision, subject: Option<String>) -> (r: Admission)
    ensures
        r == admission(decision, subject),
        r != Admission::Unauthorized <==> (decision is Public || (decision is Verify
            && subject is Some)),
        decision is Public ==> r == Admission::Anonymous,
        r matches Admission::Authenticated(s) ==> decision is Verify && subject == Some(s),
{
    match decision {
        AuthDecision::Public => Admission::Anonymous,
        AuthDecision::Reject => Admission::Unauthorized,
        AuthDecision::Verify(_) => match subject {
            Some(s) => Admission::Authenticated(s),
            None => Admission::Unauthorized,
        },
    }
}

/// What `guard_outcome` gives, as a spec.
pub open spec fn admission(decision: AuthDecision, subject: Option<String>) -> Admission {
    match decision {
        AuthDecision::Public => Admission::Anonymous,
        AuthDecision::Reject => Admission::Unauthorized,
        AuthDecision::Verify(_) => match subject {
            Some(s) => Admission::Authenticated(s),
            None => Admission::Unauthorized,
        },
    }
}

/// A request passes the guard if and only if its path is public or it
/// presents a bearer token that verifies; a passed request on a private
/// path carries the user the token names. `subject` is the outcome of
/// checking the presented token.
pub proof fn lemma_guard_passes_iff(
    path: Seq<char>,
    authorization: Option<Seq<char>>,
    decision: AuthDecision,
    subject: Option<String>,
)
    requires
        guard_decides(path, authorization, decision),
    ensures
        admission(decision, subject) != Admission::Unauthorized <==> (is_public_path(path) || (
        presented_token(authorization) is Some && subject is Some)),
        !is_public_path(path) && admission(decision, subject) != Admission::Unauthorized
            ==> admission(decision, subject) == Admission::Authenticated(subject->0),
        is_public_path(path) ==> admission(decision, subject) == Admission::Anonymous,
{
}


/// On a private path, every header that begins with `Bearer ` goes to token
/// checking with exactly the text after the prefix, whatever its length;
/// only a missing header or another scheme is turned away there; a public
/// path always passes.
pub proof fn lemma_bearer_header_goes_to_token_check(
    path: Seq<char>,
    authorization: Option<Seq<char>>,
    d: AuthDecision,
)
    requires
        guard_decides(path, authorization, d),
    ensures
        is_public_path(path) ==> d == AuthDecision::Public,
        !is_public_path(path) && (authorization matches Some(h) && has_prefix(h, "Bearer "@)) ==> (
        d matches AuthDecision::Verify(x) && x@ == authorization->0.skip(7)),
        !is_public_path(path) && authorization is None ==> d == AuthDecision::Reject,
        !is_public_path(path) && (authorization matches Some(h) && !has_prefix(h, "Bearer "@))
            ==> d == AuthDecision::Reject,
{
}

} // verus!
