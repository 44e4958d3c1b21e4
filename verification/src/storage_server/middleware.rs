use vstd::prelude::*;
use crate::common::auth::{checked_outcome, checks_token, hs256_refusal, CheckedToken};
use crate::common::middleware;
use crate::status::{status_is, Code, Status};

verus! {

/// The storage server's request interceptor: `jwt_header` is the `jwt`
/// metadata entry when present and readable as text. Without it the call is
/// refused as unauthenticated; otherwise the token is checked with `secret`,
/// and one whose signature holds is handed on for its claims to be read.
pub fn auth_jwt(jwt_header: Option<&str>, secret: &[u8]) -> (r: Result<CheckedToken, Status>)
    ensures
        jwt_header is None ==> (r matches Err(s) && status_is(
            s,
            Code::Unauthenticated,
            "No \"jwt\" was provided"@,
        )),
        r matches Err(s) ==> s.code == Code::Unauthenticated,
        jwt_header matches Some(t) ==> checks_token(t@, secret@, checked_outcome(r)),
        jwt_header matches Some(t) ==> (r matches Err(s) ==> status_is(
            s,
            Code::Unauthenticated,
            hs256_refusal(t@, secret@),
        )),
{
    middleware::auth_jwt(jwt_header, secret)
}

/// Builds the storage server's operation gate around a service.
#[derive(Clone, Copy, Debug)]
pub struct MyMiddlewareLayer;

impl MyMiddlewareLayer {
    /// Wraps `service` in the operation gate.
    pub fn layer<S>(&self, service: S) -> (r: MyMiddleware<S>)
        ensures
            r.inner() == service,
    {
        MyMiddleware { inner: service }
    }
}

/// The storage server's operation gate: only lets through requests naming
/// an operation and carrying authenticated claims.
#[derive(Clone, Debug)]
pub struct MyMiddleware<S> {
    inner: S,
}

/// The answer of the operation gate, given the request's `operation_id`
/// header (when present and readable as text) and whether the request
/// carries the claims of an authenticated token.
pub open spec fn operation_gate_spec(operation_id: Option<Seq<char>>, has_claims: bool) -> Option<
    (Code, Seq<char>),
> {
    if operation_id is None {
        Some((Code::PermissionDenied, "No \"operation_id\" was provided"@))
    } else if !has_claims {
        Some(
            (
                Code::Internal,
                "Missing a required request extension \"jwt_claims\", authentication middleware might not be working"@,
            ),
        )
    } else {
        None
    }
}

impl<S> MyMiddleware<S> {
    /// The wrapped service.
    pub closed spec fn inner(&self) -> S {
        self.inner
    }

    /// Access to the wrapped service, to poll and call it.
    pub fn inner_mut(&mut self) -> (r: &mut S)
        ensures
            *r == old(self).inner(),
            final(self).inner() == *final(r),
    {
        &mut self.inner
    }

    /// Decides a request: `None` lets it through to the wrapped service,
    /// `Some(status)` answers it with `status`.
    pub fn check(&self, operation_id: Option<&str>, has_claims: bool) -> (r: Option<Status>)
        ensures
            match (r, operation_gate_spec(
                match operation_id {
                    Some(o) => Some(o@),
                    None => None,
                },
                has_claims,
            )) {
                (None, None) => true,
                (Some(s), Some((c, m))) => status_is(s, c, m),
                _ => false,
            },
    {
        match operation_id {
            None => Some(Status::new(Code::PermissionDenied, "No \"operation_id\" was provided")),
            Some(_) => {
                if !has_claims {
                    Some(
                        Status::new(
                            Code::Internal,
                            "Missing a required request extension \"jwt_claims\", authentication middleware might not be working",
                        ),
                    )
                } else {
                    None
                }
            },
        }
    }
}

} // verus!
