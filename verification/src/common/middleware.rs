use vstd::prelude::*;
use crate::status::{status_is, Code, Status};
use super::auth::{
    checked_outcome, checks_token, claims_verdict, hs256_refusal, verificate_jwt, CheckedToken,
    JwtFailure,
};
use super::types::TokenClaims;

verus! {

/// Turns the result of checking the `jwt` header's token into the
/// interceptor's answer: a token that got as far as its claims goes on, any
/// earlier failure is refused as unauthenticated with the checker's message.
pub fn auth_jwt_outcome(verified: Result<CheckedToken, JwtFailure>) -> (r: Result<
    CheckedToken,
    Status,
>)
    ensures
        verified is Ok ==> r == Ok::<CheckedToken, Status>(verified->Ok_0),
        verified matches Err(f) ==> (r matches Err(s) && status_is(
            s,
            Code::Unauthenticated,
            f.message@,
        )),
{
    match verified {
        Ok(t) => Ok(t),
        Err(f) => Err(Status::with_message(Code::Unauthenticated, f.message)),
    }
}

/// The request interceptor: `jwt_header` is the `jwt` metadata entry when it
/// is present and readable as text. Without it the call is refused as
/// unauthenticated; otherwise the token is checked with `secret`, and one
/// whose signature holds is handed on for its claims to be read.
pub fn auth_jwt(jwt_header: Option<&str>, secret: &[u8]) -> (r: Result<CheckedToken, Status>)
    ensures
        jwt_header is None ==> (r matches Err(s) && status_is(
            s,
            Code::Unauthenticated,
            "No \"jwt\" was provided"@,
        )),
        r matches Err(s) ==> s.code == Code::Unauthenticated,
        jwt_header matches Some(t) ==> checks_token(t@, secret@, checked_outcome(r)),
        jwt_header matches Some(t) ==> (r matches Err(s) ==> status_is(
            s,
            Code::Unauthenticated,
            hs256_refusal(t@, secret@),
        )),
{
    match jwt_header {
        Some(jwt) => auth_jwt_outcome(verificate_jwt(jwt, secret)),
        None => Err(Status::new(Code::Unauthenticated, "No \"jwt\" was provided")),
    }
}

/// The interceptor's answer once the checked token's claims were read
/// (`decoded`: the claims, or the description of why the text is not
/// storage request claims): a text that does not read is refused with the
/// token library's JSON error, before the verdict of the claims' validation
/// counts; a failed verdict is refused with its message.
pub fn decoded_token_claims(checked: CheckedToken, decoded: Result<TokenClaims, String>) -> (r: Result<
    TokenClaims,
    Status,
>)
    ensures
        decoded matches Err(e) ==> (r matches Err(s) && status_is(
            s,
            Code::Unauthenticated,
            "JSON error: "@ + e@,
        )),
        decoded is Ok && checked.verdict is Ok ==> r == Ok::<TokenClaims, Status>(decoded->Ok_0),
        decoded is Ok ==> (checked.verdict matches Err(f) ==> (r matches Err(s) && status_is(
            s,
            Code::Unauthenticated,
            f.message@,
        ))),
{
    match claims_verdict(checked, decoded) {
        Ok(c) => Ok(c),
        Err(f) => Err(Status::with_message(Code::Unauthenticated, f.message)),
    }
}

/// Builds the permission gate around a service.
#[derive(Clone, Copy, Debug)]
pub struct PermisionLayer;

impl PermisionLayer {
    /// Wraps `service` in the permission gate.
    pub fn layer<S>(&self, service: S) -> (r: Permision<S>)
        ensures
            r.inner() == service,
    {
        Permision { inner: service }
    }
}

/// The permission gate: a service that only lets through requests naming
/// an operation and carrying authenticated claims.
#[derive(Clone, Debug)]
pub struct Permision<S> {
    inner: S,
}

/// The answer of the permission gate, given the request's `operation_id`
/// header (when present and readable as text) and whether the request
/// carries the claims of an authenticated token.
pub open spec fn permission_gate_spec(operation_id: Option<Seq<char>>, has_claims: bool) -> Option<
    (Code, Seq<char>),
> {
    if operation_id is None {
        Some((Code::PermissionDenied, "No \"operation_id\" was provided"@))
    } else if !has_claims {
        Some(
            (
                Code::Internal,
                "Authentication failure: Missing a required request extension \"jwt_claims"@,
            ),
        )
    } else {
        None
    }
}

impl<S> Permision<S> {
    /// The wrapped service.
    pub closed spec fn inner(&self) -> S {
        self.inner
    }

    /// Access to the wrapped service, to poll and call it.
    pub fn inner_mut(&mut self) -> (r: &mut S)
        ensures
            *r == old(self).inner(),
            final(self).inner() == *final(r),
    {
        &mut self.inner
    }

    /// Decides a request: `None` lets it through to the wrapped service,
    /// `Some(status)` answers it with `status`.
    pub fn check(&self, operation_id: Option<&str>, has_claims: bool) -> (r: Option<Status>)
        ensures
            match (r, permission_gate_spec(
                match operation_id {
                    Some(o) => Some(o@),
                    None => None,
                },
                has_claims,
            )) {
                (None, None) => true,
                (Some(s), Some((c, m))) => status_is(s, c, m),
                _ => false,
            },
    {
        match operation_id {
            None => Some(Status::new(Code::PermissionDenied, "No \"operation_id\" was provided")),
            Some(_) => {
                if !has_claims {
                    Some(
                        Status::new(
                            Code::Internal,
                            "Authentication failure: Missing a required request extension \"jwt_claims",
                        ),
                    )
                } else {
                    None
                }
            },
        }
    }
}

} // verus!
