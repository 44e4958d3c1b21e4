use vstd::prelude::*;
use crate::common::auth::{checked_outcome, checks_token, verificate_jwt, CheckedToken, JwtFailure};
use crate::common::types::jwt_types::Claims;
use crate::status::{status_is, Code, Status};

verus! {

/// The `jwt` metadata entry of a request.
#[derive(Debug)]
pub enum JwtHeader {
    /// The request has no `jwt` entry.
    Missing,
    /// The entry holds bytes that are not visible ASCII text.
    NotText,
    /// The entry's text.
    Text(String),
}

/// The refusal for a token that did not pass the check.
pub open spec fn token_rejection(f: JwtFailure) -> (Code, Seq<char>) {
    if f.expired {
        (Code::PermissionDenied, "Expired token"@)
    } else {
        (Code::InvalidArgument, "Token decodification failed"@)
    }
}

/// The refusal for a token that did not pass the check.
pub fn token_refusal(f: JwtFailure) -> (s: Status)
    ensures
        status_is(s, token_rejection(f).0, token_rejection(f).1),
{
    if f.expired {
        Status::new(Code::PermissionDenied, "Expired token")
    } else {
        Status::new(Code::InvalidArgument, "Token decodification failed")
    }
}

/// Turns the outcome of the token check into the checked token or the
/// refusal for it.
pub fn token_outcome(verified: Result<CheckedToken, JwtFailure>) -> (r: Result<CheckedToken, Status>)
    ensures
        verified is Ok ==> r == Ok::<CheckedToken, Status>(verified->Ok_0),
        verified matches Err(f) ==> (r matches Err(s) && status_is(
            s,
            token_rejection(f).0,
            token_rejection(f).1,
        )),
{
    match verified {
        Ok(t) => Ok(t),
        Err(f) => Err(token_refusal(f)),
    }
}

/// The refusal for a `jwt` entry that cannot be used, if it cannot.
pub open spec fn jwt_header_rejection(h: JwtHeader) -> Option<(Code, Seq<char>)> {
    match h {
        JwtHeader::Missing => Some((Code::Unauthenticated, "No \"jwt\" was provided"@)),
        JwtHeader::NotText => Some((Code::InvalidArgument, "Wrong \"jwt\" format"@)),
        JwtHeader::Text(_) => None,
    }
}

/// First half of the authentication of a metadata request: reads the token
/// from the `jwt` entry and checks it with `secret`, giving the claims' JSON
/// text and the verdict of their validation.
pub fn authenticate_token(header: JwtHeader, secret: &[u8]) -> (r: Result<CheckedToken, Status>)
    ensures
        jwt_header_rejection(header) matches Some((c, m)) ==> (r matches Err(s) && status_is(
            s,
            c,
            m,
        )),
        jwt_header_rejection(header) is None ==> (r matches Err(s) ==> status_is(
            s,
            Code::InvalidArgument,
            "Token decodification failed"@,
        )),
        header matches JwtHeader::Text(t) ==> checks_token(t@, secret@, checked_outcome(r)),
{
    match header {
        JwtHeader::Missing => Err(Status::new(Code::Unauthenticated, "No \"jwt\" was provided")),
        JwtHeader::NotText => Err(Status::new(Code::InvalidArgument, "Wrong \"jwt\" format")),
        JwtHeader::Text(jwt) => token_outcome(verificate_jwt(jwt.as_str(), secret)),
    }
}

/// The session claims of a checked token, once its JSON text was read
/// (`None`: the text is not session claims). As decoding the token does, a
/// text that does not read fails before the verdict of the claims'
/// validation counts.
pub fn decoded_claims(checked: CheckedToken, claims: Option<Claims>) -> (r: Result<Claims, Status>)
    ensures
        claims is None ==> (r matches Err(s) && status_is(
            s,
            Code::InvalidArgument,
            "Token decodification failed"@,
        )),
        claims is Some && checked.verdict is Ok ==> r == Ok::<Claims, Status>(claims->0),
        claims is Some ==> (checked.verdict matches Err(f) ==> (r matches Err(s) && status_is(
            s,
            token_rejection(f).0,
            token_rejection(f).1,
        ))),
{
    match claims {
        None => Err(Status::new(Code::InvalidArgument, "Token decodification failed")),
        Some(c) => match checked.verdict {
            Ok(()) => Ok(c),
            Err(f) => Err(token_refusal(f)),
        },
    }
}

/// The refusal, if any, for a token issued at `iat` to a subject whose
/// tokens are valid from `tokens_valid_after` on (`None`: the subject was
/// not found).
pub open spec fn freshness_rejection(tokens_valid_after: Option<int>, iat: int) -> Option<
    (Code, Seq<char>),
> {
    match tokens_valid_after {
        None => Some((Code::NotFound, "Token subject not found in database"@)),
        Some(after) => if after > iat {
            Some((Code::PermissionDenied, "The given token is no longer valid"@))
        } else {
            None
        },
    }
}

/// Second half of the authentication: a token issued before the subject's
/// `tokens_valid_after` (set at each log-in, password or name change) is no
/// longer accepted.
pub fn accept_token_subject(claims: Claims, tokens_valid_after: Option<i64>) -> (r: Result<
    Claims,
    Status,
>)
    ensures
        freshness_rejection(
            match tokens_valid_after {
                Some(a) => Some(a as int),
                None => None,
            },
            claims.iat as int,
        ) matches Some((c, m)) ==> (r matches Err(s) && status_is(s, c, m)),
        freshness_rejection(
            match tokens_valid_after {
                Some(a) => Some(a as int),
                None => None,
            },
            claims.iat as int,
        ) is None ==> r == Ok::<Claims, Status>(claims),
{
    match tokens_valid_after {
        None => Err(Status::new(Code::NotFound, "Token subject not found in database")),
        Some(after) => {
            if after > claims.iat {
                Err(Status::new(Code::PermissionDenied, "The given token is no longer valid"))
            } else {
                Ok(claims)
            }
        },
    }
}

/// An authentication whose token was checked, waiting for its claims to be
/// read from their JSON text.
pub struct AuthDecode {
    checked: CheckedToken,
}

/// An authentication waiting for when the token's subject last logged in
/// or changed credentials.
pub struct AuthFreshness {
    claims: Claims,
}

/// Authenticates a metadata request by its `jwt` entry, checking the token
/// with `secret`.
pub fn auth_logic(header: JwtHeader, secret: &[u8]) -> (r: Result<AuthDecode, Status>)
    ensures
        jwt_header_rejection(header) matches Some((c, m)) ==> (r matches Err(s) && status_is(
            s,
            c,
            m,
        )),
        jwt_header_rejection(header) is None ==> checks_token(
            header->0@,
            secret@,
            match r {
                Ok(d) => Some(d.token()),
                Err(_) => None,
            },
        ),
        jwt_header_rejection(header) is None ==> (r matches Err(s) ==> status_is(
            s,
            Code::InvalidArgument,
            "Token decodification failed"@,
        )),
{
    match authenticate_token(header, secret) {
        Ok(checked) => Ok(AuthDecode { checked }),
        Err(s) => Err(s),
    }
}

impl AuthDecode {
    /// The caller's token, checked up to its claims.
    pub closed spec fn token(&self) -> CheckedToken {
        self.checked
    }

    /// The claims' JSON text of the token.
    pub closed spec fn payload(&self) -> Seq<char> {
        self.checked.payload@
    }

    /// The verdict of the validation of the token's claims.
    pub closed spec fn verdict(&self) -> Result<(), JwtFailure> {
        self.checked.verdict
    }

    /// The claims' JSON text to read.
    pub fn claims_json(&self) -> (r: &str)
        ensures
            r@ == self.payload(),
    {
        self.checked.payload.as_str()
    }

    /// Takes the claims read from the text (`None`: it is not session
    /// claims); the verdict of their validation counts after that.
    pub fn on_claims(self, claims: Option<Claims>) -> (r: Result<AuthFreshness, Status>)
        ensures
            claims is None ==> (r matches Err(s) && status_is(
                s,
                Code::InvalidArgument,
                "Token decodification failed"@,
            )),
            claims is Some && self.verdict() is Ok ==> (r matches Ok(f) && f.claims()
                == claims->0),
            claims is Some ==> (self.verdict() matches Err(f) ==> (r matches Err(s)
                && status_is(s, token_rejection(f).0, token_rejection(f).1))),
    {
        match decoded_claims(self.checked, claims) {
            Ok(c) => Ok(AuthFreshness { claims: c }),
            Err(s) => Err(s),
        }
    }
}

impl AuthFreshness {
    /// The token's claims.
    pub closed spec fn claims(&self) -> Claims {
        self.claims
    }

    /// The token's subject, whose `tokens_valid_after` to look up.
    pub fn subject(&self) -> (r: &str)
        ensures
            r@ == self.claims().sub@,
    {
        self.claims.sub.as_str()
    }

    /// Takes the subject's `tokens_valid_after` (`None`: no such user, or
    /// the query failed): a token issued before it is refused.
    pub fn on_tokens_valid_after(self, tokens_valid_after: Option<i64>) -> (r: Result<
        Claims,
        Status,
    >)
        ensures
            freshness_rejection(
                match tokens_valid_after {
                    Some(a) => Some(a as int),
                    None => None,
                },
                self.claims().iat as int,
            ) matches Some((c, m)) ==> (r matches Err(s) && status_is(s, c, m)),
            freshness_rejection(
                match tokens_valid_after {
                    Some(a) => Some(a as int),
                    None => None,
                },
                self.claims().iat as int,
            ) is None ==> r == Ok::<Claims, Status>(self.claims()),
    {
        accept_token_subject(self.claims, tokens_valid_after)
    }
}

/// A token stays accepted exactly while it was issued no earlier than the
/// subject's `tokens_valid_after`: the token issued at a log-in (whose `iat`
/// becomes the new `tokens_valid_after`) is accepted, and every token issued
/// before it is refused.
pub proof fn token_revocation(issued_at_login: int, older_iat: int)
    requires
        older_iat < issued_at_login,
    ensures
        freshness_rejection(Some(issued_at_login), issued_at_login) is None,
        freshness_rejection(Some(issued_at_login), older_iat) == Some(
            (Code::PermissionDenied, "The given token is no longer valid"@),
        ),
{
}

} // verus!
