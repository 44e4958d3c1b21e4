use vstd::prelude::*;
use crate::common::auth::{
    argon2_verifies, checks_token, generate_jwt, hs256_signed, hs256_token, verificate_jwt,
    verify_password_hash, CheckedToken,
};
use crate::common::types::jwt_types::{self, claims_json, claims_json_is_flat, Claims};
use crate::common::types::sql_types::{self, role_of_number, session_role};
use crate::metadata::middleware::{token_outcome, JwtHeader};
use crate::status::{status_is, Code, Status};
use crate::text::{decimal_string, int_decimal};

verus! {

/// Reads the role asked for a new account; unknown numbers are refused.
pub fn desired_role(user_role: i32) -> (r: Result<sql_types::Role, Status>)
    ensures
        role_of_number(user_role as int) matches Some(role) ==> r == Ok::<
            sql_types::Role,
            Status,
        >(role),
        role_of_number(user_role as int) is None ==> (r matches Err(s) && status_is(
            s,
            Code::InvalidArgument,
            "Invalid role value "@ + int_decimal(user_role as int),
        )),
{
    match sql_types::Role::try_from(user_role) {
        Ok(role) => Ok(role),
        Err(_) => {
            let mut message = String::new();
            message.append("Invalid role value ");
            message.append(decimal_string(user_role as i64).as_str());
            Err(Status::with_message(Code::InvalidArgument, message))
        },
    }
}

/// Reads the token that may come with an account creation: no `jwt` entry
/// means an anonymous caller; an unreadable entry or a token that does not
/// pass the check up to its claims refuses the call; otherwise the checked
/// token, whose claims are still to be read.
pub fn read_optional_jwt(header: JwtHeader, secret: &[u8]) -> (r: Result<
    Option<CheckedToken>,
    Status,
>)
    ensures
        header is Missing ==> r matches Ok(None),
        header is NotText ==> (r matches Err(s) && status_is(
            s,
            Code::InvalidArgument,
            "Wrong \"jwt\" format"@,
        )),
        header is Text ==> (r is Ok ==> r matches Ok(Some(_))),
        header is Text ==> (r matches Err(s) ==> status_is(
            s,
            Code::InvalidArgument,
            "Token decodification failed"@,
        )),
        header matches JwtHeader::Text(t) ==> checks_token(
            t@,
            secret@,
            match r {
                Ok(Some(c)) => Some(c),
                _ => None,
            },
        ),
{
    match header {
        JwtHeader::Missing => Ok(None),
        JwtHeader::NotText => Err(Status::new(Code::InvalidArgument, "Wrong \"jwt\" format")),
        JwtHeader::Text(jwt) => match token_outcome(verificate_jwt(jwt.as_str(), secret)) {
            Ok(checked) => Ok(Some(checked)),
            Err(s) => Err(s),
        },
    }
}

/// The role a new account gets: the one asked for, except that only a
/// caller holding an admin token may create an admin.
pub open spec fn granted_role(desired: sql_types::Role, token_role: Option<jwt_types::Role>) -> Option<
    sql_types::Role,
> {
    if (token_role is None || token_role == Some(jwt_types::Role::User)) && desired
        == sql_types::Role::Admin {
        None
    } else {
        Some(desired)
    }
}

/// Decides the role of a new account from the role asked for and the role
/// of the caller's token, if the caller sent one.
pub fn grant_role(desired: sql_types::Role, token_role: Option<jwt_types::Role>) -> (r: Result<
    sql_types::Role,
    Status,
>)
    ensures
        granted_role(desired, token_role) matches Some(role) ==> r == Ok::<
            sql_types::Role,
            Status,
        >(role),
        granted_role(desired, token_role) is None ==> (r matches Err(s) && status_is(
            s,
            Code::PermissionDenied,
            "Insufficient permissions to do this operation"@,
        )),
{
    let anonymous_or_user = match token_role {
        None => true,
        Some(t) => t == jwt_types::Role::User,
    };
    if anonymous_or_user && desired == sql_types::Role::Admin {
        return Err(
            Status::new(Code::PermissionDenied, "Insufficient permissions to do this operation"),
        );
    }
    Ok(desired)
}

/// Only a caller holding an admin token can create an admin account, and
/// such a caller may create either; every granted role is the one asked
/// for, and anybody may create a plain user.
pub proof fn only_admins_create_admins(
    desired: sql_types::Role,
    token_role: Option<jwt_types::Role>,
)
    ensures
        granted_role(desired, token_role) == Some(sql_types::Role::Admin) ==> token_role == Some(
            jwt_types::Role::Admin,
        ),
        granted_role(desired, token_role) matches Some(r) ==> r == desired,
        granted_role(sql_types::Role::User, token_role) == Some(sql_types::Role::User),
        token_role == Some(jwt_types::Role::Admin) ==> granted_role(desired, token_role) == Some(
            desired,
        ),
{
}

/// Checks the password given at log-in against the stored hash.
pub fn check_login_password(password: &[u8], stored_hash: &str) -> (r: Result<(), Status>)
    ensures
        argon2_verifies(password@, stored_hash@) ==> r is Ok,
        !argon2_verifies(password@, stored_hash@) ==> (r matches Err(s) && status_is(
            s,
            Code::PermissionDenied,
            "Invalid user password"@,
        )),
{
    match verify_password_hash(password, stored_hash) {
        Ok(()) => Ok(()),
        Err(_) => Err(Status::new(Code::PermissionDenied, "Invalid user password")),
    }
}

/// Days a session token lasts: 30 when the user asked to be remembered, 1
/// otherwise.
pub open spec fn lifetime_days(remember: bool) -> int {
    if remember {
        30
    } else {
        1
    }
}

/// Days a session token lasts.
pub fn token_lifetime_days(remember: bool) -> (r: u64)
    ensures
        r as int == lifetime_days(remember),
{
    if remember {
        30
    } else {
        1
    }
}

/// The first second a `chrono::DateTime<Utc>` can hold: the start of the
/// year -262143, in seconds since the epoch.
pub open spec fn first_chrono_second() -> int {
    -8334601228800
}

/// The last whole second a `chrono::DateTime<Utc>` can hold: the end of the
/// year 262142, in seconds since the epoch.
pub open spec fn last_chrono_second() -> int {
    8210266876799
}

/// The expiry `days` days after `now` is a time `chrono` can hold.
pub open spec fn expiry_in_range(now: int, days: int) -> bool {
    first_chrono_second() <= now && now + 86400 * days <= last_chrono_second()
}

/// `DateTime::<Utc>::from_timestamp(timestamp, 0)`, then `checked_add_days`,
/// then `timestamp()`. Claimed: it gives a time exactly when the start and
/// the end both lie in `chrono`'s range (both calls return `None` out of
/// range), and that time lies `days` whole days (86400 s each, UTC having no
/// transitions) after `timestamp`.
#[verifier::external_body]
fn add_days(timestamp: i64, days: u64) -> (r: Option<i64>)
    ensures
        r is Some <==> expiry_in_range(timestamp as int, days as int),
        r matches Some(t) ==> t == timestamp + 86400 * days,
{
    match chrono::DateTime::<chrono::Utc>::from_timestamp(timestamp, 0) {
        Some(start) => match start.checked_add_days(chrono::Days::new(days)) {
            Some(end) => Some(end.timestamp()),
            None => None,
        },
        None => None,
    }
}

/// The claims of the session token issued at `now` (seconds since the
/// epoch) to `user_name`, holding the account role `role`.
pub fn issue_claims(user_name: String, role: sql_types::Role, now: i64, remember: bool) -> (r: Result<
    Claims,
    Status,
>)
    ensures
        r matches Ok(c) ==> c.sub == user_name && c.role == session_role(role) && c.iat == now
            && c.exp == now + 86400 * lifetime_days(remember),
        r is Ok <==> expiry_in_range(now as int, lifetime_days(remember)),
        r matches Err(s) ==> status_is(s, Code::Internal, "Date out of the 64-bit limit"@),
{
    let days = token_lifetime_days(remember);
    match add_days(now, days) {
        Some(exp) => Ok(Claims { sub: user_name, role: role.into(), exp, iat: now }),
        None => Err(Status::new(Code::Internal, "Date out of the 64-bit limit")),
    }
}

/// Issues the session token of a log-in at `now`, signed with `secret`, and
/// the issue time to record as the user's `tokens_valid_after`.
pub fn log_in_token(
    user_name: &String,
    role: sql_types::Role,
    now: i64,
    remember: bool,
    secret: &[u8],
) -> (r: Result<(String, i64), Status>)
    ensures
        r matches Ok((token, iat)) ==> iat == now && token@ == hs256_token(
            claims_json(
                user_name@,
                session_role(role),
                now + 86400 * lifetime_days(remember),
                now as int,
            ),
            secret@,
        ),
        r is Ok <==> expiry_in_range(now as int, lifetime_days(remember)),
        r matches Err(s) ==> status_is(s, Code::Internal, "Date out of the 64-bit limit"@),
{
    let claims = match issue_claims(user_name.clone(), role, now, remember) {
        Ok(c) => c,
        Err(s) => return Err(s),
    };
    match generate_jwt(&claims, secret) {
        Some(token) => Ok((token, claims.iat)),
        None => Err(Status::new(Code::Internal, "\"jwt\"encoding failed")),
    }
}

/// A session token expires exactly its lifetime after it is issued: one day,
/// or thirty for a remembered log-in.
pub proof fn session_lifetime(now: int, remember: bool)
    ensures
        (now + 86400 * lifetime_days(remember)) - now == if remember {
            2592000int
        } else {
            86400int
        },
{
}

/// A session token checks back as the claims it was signed for: when the
/// token signed with `secret` for the claims of a log-in is checked with the
/// same key, its signature holds, the check always gets as far as the
/// claims, and the claims text it hands back is exactly those claims
/// (whether the token is still valid is the verdict on their `exp`, which
/// compares with the clock).
pub proof fn session_token_round_trip(
    sub: Seq<char>,
    role: jwt_types::Role,
    exp: int,
    iat: int,
    secret: Seq<u8>,
    outcome: Option<CheckedToken>,
)
    requires
        checks_token(hs256_token(claims_json(sub, role, exp, iat), secret), secret, outcome),
    ensures
        outcome matches Some(t) && t.payload@ == claims_json(sub, role, exp, iat),
        hs256_signed(hs256_token(claims_json(sub, role, exp, iat), secret), secret),
{
    claims_json_is_flat(sub, role, exp, iat);
}

} // verus!
