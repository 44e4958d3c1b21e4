//! Creating accounts and logging in.
use vstd::prelude::*;
use crate::common::auth::{
    argon2_verifies, checks_token, has_prefix, hash_password, hs256_token, CheckedToken,
    JwtFailure,
};
use crate::common::types::jwt_types::{self, claims_json};
use crate::common::types::sql_types::{self, role_of_number, session_role};
use crate::metadata::middleware::{token_refusal, token_rejection, JwtHeader};
use crate::metadata_server::handlers::accounts::hashing_refusal;
use crate::metadata_server::messages::{CreateUserRequest, LogInRequest};
use crate::metadata_server::metadata::public::{
    check_login_password, desired_role, expiry_in_range, grant_role, granted_role, lifetime_days,
    log_in_token, read_optional_jwt,
};
use crate::status::{status_is, Code, Status};
use crate::text::int_decimal;
use crate::common::valid::valid_user_name;
use crate::validation::{
    account_form_outcome, account_form_rules, account_form_status, password_meets_rules,
};
use vstd::utf8::encode_utf8;

verus! {

/// Why an account-creation request is refused before its token is looked
/// at: a broken form rule, or an unknown role number.
pub open spec fn request_refusal(request: CreateUserRequest) -> Option<(Code, Seq<char>)> {
    match account_form_outcome(
        request.user_name@,
        request.password@,
        request.confirm_password@,
    ) {
        Some(refusal) => Some(refusal),
        None => match role_of_number(request.user_role as int) {
            None => Some(
                (Code::InvalidArgument, "Invalid role value "@ + int_decimal(request.user_role as int)),
            ),
            Some(_) => None,
        },
    }
}

/// An account-creation request passes its first checks exactly when the
/// user name is valid, the password meets every password rule, the
/// confirmation repeats it, and the role number is that of a user (`0`) or
/// of an admin (`1`).
pub proof fn account_request_rules(request: CreateUserRequest)
    ensures
        request_refusal(request) is None <==> (valid_user_name(request.user_name@)
            && password_meets_rules(request.password@) && request.password@
            == request.confirm_password@ && (request.user_role == 0 || request.user_role == 1)),
{
    account_form_rules(request.user_name@, request.password@, request.confirm_password@);
}

/// Why creating the account with role `desired` for a caller of session
/// role `token_role` (none without a token) is refused: only admins create
/// admins, and the password must be one the hasher takes.
pub open spec fn grant_refusal(
    request: CreateUserRequest,
    desired: sql_types::Role,
    token_role: Option<jwt_types::Role>,
) -> Option<(Code, Seq<char>)> {
    if granted_role(desired, token_role) is None {
        Some((Code::PermissionDenied, "Insufficient permissions to do this operation"@))
    } else {
        hashing_refusal(request.password@)
    }
}

/// An account ready to be inserted: its name, password hash and role.
pub struct CreateUserInsert {
    user_name: String,
    password_hash: String,
    role: sql_types::Role,
}

/// An account creation with a token, waiting for the token's claims to be
/// read from their JSON text.
pub struct CreateUserClaims {
    request: CreateUserRequest,
    desired: sql_types::Role,
    checked: CheckedToken,
}

/// What an account creation does after its request is checked.
pub enum CreateUserNext {
    /// The caller sent a token whose claims are to be read.
    DecodeClaims(CreateUserClaims),
    /// The account can be inserted.
    Insert(CreateUserInsert),
}

/// `i` inserts the account of `request` with role `role`.
pub open spec fn inserts(i: CreateUserInsert, request: CreateUserRequest, role: sql_types::Role) -> bool {
    &&& i.user() == request.user_name@
    &&& i.role() == role
    &&& argon2_verifies(encode_utf8(request.password@), i.hash())
    &&& has_prefix(i.hash(), "$argon2id$"@)
}

fn grant(request: CreateUserRequest, desired: sql_types::Role, token_role: Option<jwt_types::Role>) -> (r:
    Result<CreateUserInsert, Status>)
    ensures
        grant_refusal(request, desired, token_role) matches Some((c, m)) ==> (r matches Err(s)
            && status_is(s, c, m)),
        grant_refusal(request, desired, token_role) is None ==> (r matches Ok(i) && inserts(
            i,
            request,
            desired,
        )),
{
    let role = match grant_role(desired, token_role) {
        Ok(role) => role,
        Err(s) => return Err(s),
    };
    match hash_password(request.password.as_str().as_bytes()) {
        Ok(h) => Ok(CreateUserInsert { user_name: request.user_name, password_hash: h, role }),
        Err(_) => Err(Status::new(Code::Internal, "Password hashing failed")),
    }
}

/// Starts creating an account: checks the form and the role, then the
/// optional token (`jwt` metadata entry) the caller sent, checked with
/// `secret`. Without a token only a plain account can be created.
pub fn create_user(request: CreateUserRequest, header: JwtHeader, secret: &[u8]) -> (r: Result<
    CreateUserNext,
    Status,
>)
    ensures
        request_refusal(request) matches Some((c, m)) ==> (r matches Err(s) && status_is(s, c, m)),
        request_refusal(request) is None && header is NotText ==> (r matches Err(s) && status_is(
            s,
            Code::InvalidArgument,
            "Wrong \"jwt\" format"@,
        )),
        request_refusal(request) is None && header is Missing ==> match grant_refusal(
            request,
            role_of_number(request.user_role as int)->0,
            None,
        ) {
            Some((c, m)) => r matches Err(s) && status_is(s, c, m),
            None => r matches Ok(CreateUserNext::Insert(i)) && inserts(
                i,
                request,
                role_of_number(request.user_role as int)->0,
            ),
        },
        request_refusal(request) is None && header is Text ==> checks_token(
            header->0@,
            secret@,
            match r {
                Ok(CreateUserNext::DecodeClaims(d)) => Some(d.token()),
                _ => None,
            },
        ),
        request_refusal(request) is None && header is Text ==> (match r {
            Ok(CreateUserNext::DecodeClaims(d)) => d.request() == request && d.desired()
                == role_of_number(request.user_role as int)->0,
            Ok(CreateUserNext::Insert(_)) => false,
            Err(s) => status_is(s, Code::InvalidArgument, "Token decodification failed"@),
        }),
{
    match account_form_status(
        request.user_name.as_str(),
        request.password.as_str(),
        request.confirm_password.as_str(),
    ) {
        Err(s) => return Err(s),
        Ok(()) => {},
    }
    let desired = match desired_role(request.user_role) {
        Ok(d) => d,
        Err(s) => return Err(s),
    };
    match read_optional_jwt(header, secret) {
        Err(s) => Err(s),
        Ok(None) => match grant(request, desired, None) {
            Ok(i) => Ok(CreateUserNext::Insert(i)),
            Err(s) => Err(s),
        },
        Ok(Some(checked)) => Ok(CreateUserNext::DecodeClaims(CreateUserClaims { request, desired, checked })),
    }
}

impl CreateUserClaims {
    /// The account asked for.
    pub closed spec fn request(&self) -> CreateUserRequest {
        self.request
    }

    /// The role asked for.
    pub closed spec fn desired(&self) -> sql_types::Role {
        self.desired
    }

    /// The caller's token, checked up to its claims.
    pub closed spec fn token(&self) -> CheckedToken {
        self.checked
    }

    /// The claims' JSON text of the caller's token.
    pub closed spec fn payload(&self) -> Seq<char> {
        self.checked.payload@
    }

    /// The verdict of the validation of the token's claims.
    pub closed spec fn verdict(&self) -> Result<(), JwtFailure> {
        self.checked.verdict
    }

    /// The claims' JSON text to read.
    pub fn claims_json(&self) -> (r: &str)
        ensures
            r@ == self.payload(),
    {
        self.checked.payload.as_str()
    }

    /// Takes the session role the claims carry (`None`: the text is not
    /// session claims); the verdict of their validation counts after that.
    pub fn on_claims(self, token_role: Option<jwt_types::Role>) -> (r: Result<CreateUserInsert, Status>)
        ensures
            token_role is None ==> (r matches Err(s) && status_is(
                s,
                Code::InvalidArgument,
                "Token decodification failed"@,
            )),
            token_role is Some ==> (self.verdict() matches Err(f) ==> (r matches Err(s)
                && status_is(s, token_rejection(f).0, token_rejection(f).1))),
            token_role is Some && self.verdict() is Ok ==> match grant_refusal(
                self.request(),
                self.desired(),
                token_role,
            ) {
                Some((c, m)) => r matches Err(s) && status_is(s, c, m),
                None => r matches Ok(i) && inserts(i, self.request(), self.desired()),
            },
    {
        if token_role.is_none() {
            return Err(Status::new(Code::InvalidArgument, "Token decodification failed"));
        }
        match self.checked.verdict {
            Err(f) => Err(token_refusal(f)),
            Ok(()) => grant(self.request, self.desired, token_role),
        }
    }
}

impl CreateUserInsert {
    /// The account's name.
    pub closed spec fn user(&self) -> Seq<char> {
        self.user_name@
    }

    /// The account's password hash.
    pub closed spec fn hash(&self) -> Seq<char> {
        self.password_hash@
    }

    /// The account's role.
    pub closed spec fn role(&self) -> sql_types::Role {
        self.role
    }

    /// The account's name.
    pub fn user_name(&self) -> (r: &str)
        ensures
            r@ == self.user(),
    {
        self.user_name.as_str()
    }

    /// The account's password hash.
    pub fn password_hash(&self) -> (r: &str)
        ensures
            r@ == self.hash(),
    {
        self.password_hash.as_str()
    }

    /// The account's role.
    pub fn account_role(&self) -> (r: sql_types::Role)
        ensures
            r == self.role(),
    {
        self.role
    }

    /// Takes whether the account was inserted; it fails when the name is taken.
    pub fn on_inserted(self, inserted: bool) -> (r: Result<(), Status>)
        ensures
            inserted ==> r is Ok,
            !inserted ==> (r matches Err(s) && status_is(
                s,
                Code::AlreadyExists,
                "Username is already in use"@,
            )),
    {
        if inserted {
            Ok(())
        } else {
            Err(Status::new(Code::AlreadyExists, "Username is already in use"))
        }
    }
}

// ---------------------------------------------------------------- log-in

/// A log-in, waiting for the account's role and stored password hash.
pub struct LogInFetch {
    request: LogInRequest,
}

/// A log-in with the right password, waiting for the current time.
pub struct LogInIssue {
    request: LogInRequest,
    role: sql_types::Role,
}

/// A log-in whose token is issued, waiting for its issue time to be
/// recorded as the account's `tokens_valid_after`.
pub struct LogInRecord {
    user_name: String,
    issued_at: i64,
    token: String,
}

/// Starts a log-in.
pub fn log_in(request: LogInRequest) -> (r: LogInFetch)
    ensures
        r.request() == request,
{
    LogInFetch { request }
}

impl LogInFetch {
    /// The log-in asked for.
    pub closed spec fn request(&self) -> LogInRequest {
        self.request
    }

    /// The account to look up.
    pub fn user_name(&self) -> (r: &str)
        ensures
            r@ == self.request().user_name@,
    {
        self.request.user_name.as_str()
    }

    /// Takes the account's role and stored hash (`None`: no such account,
    /// or the query failed). The log-in goes on only with the right password.
    pub fn on_account(self, account: Option<(sql_types::Role, String)>) -> (r: Result<
        LogInIssue,
        Status,
    >)
        ensures
            match account {
                None => r matches Err(s) && status_is(s, Code::NotFound, "Nonexistent user"@),
                Some((role, h)) => if argon2_verifies(encode_utf8(self.request().password@), h@) {
                    r matches Ok(i) && i.request() == self.request() && i.role() == role
                } else {
                    r matches Err(s) && status_is(s, Code::PermissionDenied, "Invalid user password"@)
                },
            },
    {
        let (role, h) = match account {
            None => return Err(Status::new(Code::NotFound, "Nonexistent user")),
            Some(a) => a,
        };
        match check_login_password(self.request.password.as_str().as_bytes(), h.as_str()) {
            Ok(()) => Ok(LogInIssue { request: self.request, role }),
            Err(s) => Err(s),
        }
    }
}

impl LogInIssue {
    /// The log-in asked for.
    pub closed spec fn request(&self) -> LogInRequest {
        self.request
    }

    /// The account's role.
    pub closed spec fn role(&self) -> sql_types::Role {
        self.role
    }

    /// Takes the current time (seconds since the epoch) and issues the
    /// session token, signed with `secret`.
    pub fn on_clock(self, now: i64, secret: &[u8]) -> (r: Result<LogInRecord, Status>)
        ensures
            !expiry_in_range(now as int, lifetime_days(self.request().remember)) ==> (r matches Err(
                s,
            ) && status_is(s, Code::Internal, "Date out of the 64-bit limit"@)),
            expiry_in_range(now as int, lifetime_days(self.request().remember)) ==> (r matches Ok(
                rec,
            ) && rec.user() == self.request().user_name@ && rec.issued_at() == now
                && rec.token() == hs256_token(
                claims_json(
                    self.request().user_name@,
                    session_role(self.role()),
                    now + 86400 * lifetime_days(self.request().remember),
                    now as int,
                ),
                secret@,
            )),
    {
        match log_in_token(&self.request.user_name, self.role, now, self.request.remember, secret) {
            Ok((token, iat)) => Ok(LogInRecord { user_name: self.request.user_name, issued_at: iat, token }),
            Err(s) => Err(s),
        }
    }
}

impl LogInRecord {
    /// The account logging in.
    pub closed spec fn user(&self) -> Seq<char> {
        self.user_name@
    }

    /// The token's issue time.
    pub closed spec fn issued_at(&self) -> i64 {
        self.issued_at
    }

    /// The session token.
    pub closed spec fn token(&self) -> Seq<char> {
        self.token@
    }

    /// The account logging in.
    pub fn user_name(&self) -> (r: &str)
        ensures
            r@ == self.user(),
    {
        self.user_name.as_str()
    }

    /// The issue time to record: tokens issued before it are no longer
    /// accepted.
    pub fn tokens_valid_after(&self) -> (r: i64)
        ensures
            r == self.issued_at(),
    {
        self.issued_at
    }

    /// Takes whether the issue time was recorded; the log-in answers with
    /// the token once it was.
    pub fn on_recorded(self, recorded: bool) -> (r: Result<String, Status>)
        ensures
            recorded ==> (r matches Ok(t) && t@ == self.token()),
            !recorded ==> (r matches Err(s) && status_is(s, Code::NotFound, "Nonexistent user"@)),
    {
        if recorded {
            Ok(self.token)
        } else {
            Err(Status::new(Code::NotFound, "Nonexistent user"))
        }
    }
}

} // verus!
