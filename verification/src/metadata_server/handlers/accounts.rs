//! Deleting, renaming and re-keying accounts.
use vstd::prelude::*;
use crate::common::auth::{argon2_verifies, hash_password};
use crate::common::types::jwt_types::{Claims, Role};
use crate::metadata_server::messages::{ChangePasswordRequest, ChangeUserNameRequest, DeleteUserRequest};
use crate::metadata_server::metadata::private::{
    authorize_owner, check_current_password, claims_or_internal, group_by_storage_node,
    grouped_by_node, insufficient_permissions, missing_claims, needs_current_password,
    owner_or_admin, require_existing_user, DocumentLocation, NodeDeletion,
};
use crate::status::{status_is, Code, Status};
use vstd::utf8::encode_utf8;

verus! {

/// The refusal for a failed database query.
pub open spec fn database_error() -> Seq<char> {
    "Internal database error"@
}

fn database_failure() -> (s: Status)
    ensures
        status_is(s, Code::Internal, database_error()),
{
    Status::new(Code::Internal, "Internal database error")
}

/// The caller checks every account call starts with: the request carries
/// claims, and they belong to the account's owner or to an admin.
pub open spec fn account_call_refusal(claims: Option<Claims>, user: Seq<char>) -> Option<
    (Code, Seq<char>),
> {
    match claims {
        None => Some((Code::Internal, missing_claims())),
        Some(c) => if owner_or_admin(c, user) {
            None
        } else {
            Some((Code::PermissionDenied, insufficient_permissions()))
        },
    }
}

/// Who may make a call about an account: the account's own user, and every
/// admin whatever the account; another plain user is refused for want of
/// permission, and a request without claims as an internal failure.
pub proof fn account_callers(claims: Claims, user: Seq<char>)
    ensures
        claims.role == Role::Admin ==> account_call_refusal(Some(claims), user) is None,
        claims.sub@ == user ==> account_call_refusal(Some(claims), user) is None,
        claims.role == Role::User && claims.sub@ != user ==> account_call_refusal(Some(claims), user)
            == Some((Code::PermissionDenied, "Insufficient permissions to do this operation"@)),
        account_call_refusal(None, user) matches Some((c, _)) && c == Code::Internal,
{
}

fn check_caller(claims: Option<Claims>, user: &String) -> (r: Result<Claims, Status>)
    ensures
        account_call_refusal(claims, user@) matches Some((c, m)) ==> (r matches Err(s)
            && status_is(s, c, m)),
        account_call_refusal(claims, user@) is None ==> r == Ok::<Claims, Status>(claims->0),
{
    let c = match claims_or_internal(claims) {
        Ok(c) => c,
        Err(s) => return Err(s),
    };
    match authorize_owner(&c, user) {
        Ok(()) => Ok(c),
        Err(s) => Err(s),
    }
}

/// The answer to "does this account exist": `None` when the query failed.
pub open spec fn account_lookup_refusal(exists: Option<bool>) -> Option<(Code, Seq<char>)> {
    match exists {
        None => Some((Code::Internal, database_error())),
        Some(false) => Some((Code::NotFound, "Nonexistent user"@)),
        Some(true) => None,
    }
}

fn check_account(exists: Option<bool>) -> (r: Result<(), Status>)
    ensures
        account_lookup_refusal(exists) matches Some((c, m)) ==> (r matches Err(s) && status_is(
            s,
            c,
            m,
        )),
        account_lookup_refusal(exists) is None ==> r is Ok,
{
    match exists {
        None => Err(database_failure()),
        Some(b) => require_existing_user(b),
    }
}

// ---------------------------------------------------------------- deletion

/// An account deletion the caller may make, waiting for whether the
/// account exists.
pub struct DeleteUserCheck {
    user_name: String,
}

/// An account deletion of an existing account, waiting for where the
/// account's documents are stored.
pub struct DeleteUserLocate {
    user_name: String,
}

/// An account deletion waiting for the transaction that removes the
/// account, its documents and its local topics and subtopics.
pub struct DeleteUserPurge {
    user_name: String,
    locations: Vec<DocumentLocation>,
}

/// How the transaction removing an account's data ended.
#[derive(Clone, Copy, Debug, PartialEq, Eq, Structural)]
pub enum PurgeOutcome {
    StartFailed,
    QueryFailed,
    CommitFailed,
    Committed,
}

/// The refusal for a purge that did not commit.
pub open spec fn purge_refusal(outcome: PurgeOutcome) -> Option<(Code, Seq<char>)> {
    match outcome {
        PurgeOutcome::StartFailed => Some(
            (Code::Internal, "Internal database error, unable to start transaction"@),
        ),
        PurgeOutcome::QueryFailed => Some((Code::Internal, database_error())),
        PurgeOutcome::CommitFailed => Some((Code::Internal, "Transaction commit failed"@)),
        PurgeOutcome::Committed => None,
    }
}

/// Starts deleting an account: only its owner or an admin may.
pub fn delete_user(claims: Option<Claims>, request: DeleteUserRequest) -> (r: Result<
    DeleteUserCheck,
    Status,
>)
    ensures
        account_call_refusal(claims, request.user_name@) matches Some((c, m)) ==> (r matches Err(
            s,
        ) && status_is(s, c, m)),
        account_call_refusal(claims, request.user_name@) is None ==> (r matches Ok(n) && n.user()
            == request.user_name@),
{
    match check_caller(claims, &request.user_name) {
        Ok(_) => Ok(DeleteUserCheck { user_name: request.user_name }),
        Err(s) => Err(s),
    }
}

impl DeleteUserCheck {
    /// The account being deleted.
    pub closed spec fn user(&self) -> Seq<char> {
        self.user_name@
    }

    /// The account to look up.
    pub fn user_name(&self) -> (r: &str)
        ensures
            r@ == self.user(),
    {
        self.user_name.as_str()
    }

    /// Takes whether the account exists (`None`: the query failed).
    pub fn on_account(self, exists: Option<bool>) -> (r: Result<DeleteUserLocate, Status>)
        ensures
            account_lookup_refusal(exists) matches Some((c, m)) ==> (r matches Err(s)
                && status_is(s, c, m)),
            account_lookup_refusal(exists) is None ==> (r matches Ok(n) && n.user()
                == self.user()),
    {
        match check_account(exists) {
            Ok(()) => Ok(DeleteUserLocate { user_name: self.user_name }),
            Err(s) => Err(s),
        }
    }
}

impl DeleteUserLocate {
    /// The account being deleted.
    pub closed spec fn user(&self) -> Seq<char> {
        self.user_name@
    }

    /// The account whose documents to locate.
    pub fn user_name(&self) -> (r: &str)
        ensures
            r@ == self.user(),
    {
        self.user_name.as_str()
    }

    /// Takes the storage locations of the account's documents (`None`: the
    /// query failed).
    pub fn on_locations(self, locations: Option<Vec<DocumentLocation>>) -> (r: Result<
        DeleteUserPurge,
        Status,
    >)
        ensures
            locations is None ==> (r matches Err(s) && status_is(s, Code::Internal, database_error())),
            locations matches Some(ls) ==> (r matches Ok(p) && p.user() == self.user()
                && p.locations() == ls@),
    {
        match locations {
            None => Err(database_failure()),
            Some(ls) => Ok(DeleteUserPurge { user_name: self.user_name, locations: ls }),
        }
    }
}

impl DeleteUserPurge {
    /// The account being deleted.
    pub closed spec fn user(&self) -> Seq<char> {
        self.user_name@
    }

    /// Where the account's documents are stored.
    pub closed spec fn locations(&self) -> Seq<DocumentLocation> {
        self.locations@
    }

    /// The account whose data to remove.
    pub fn user_name(&self) -> (r: &str)
        ensures
            r@ == self.user(),
    {
        self.user_name.as_str()
    }

    /// Takes how the removal transaction ended. Once it committed, the
    /// call succeeds and the account's files are to be deleted from their
    /// storage nodes, one request per node.
    pub fn on_purge(self, outcome: PurgeOutcome) -> (r: Result<Vec<NodeDeletion>, Status>)
        ensures
            purge_refusal(outcome) matches Some((c, m)) ==> (r matches Err(s) && status_is(
                s,
                c,
                m,
            )),
            purge_refusal(outcome) is None ==> (r matches Ok(groups) && grouped_by_node(
                self.locations(),
                groups@,
            )),
    {
        match outcome {
            PurgeOutcome::StartFailed => Err(
                Status::new(Code::Internal, "Internal database error, unable to start transaction"),
            ),
            PurgeOutcome::QueryFailed => Err(database_failure()),
            PurgeOutcome::CommitFailed => Err(Status::new(Code::Internal, "Transaction commit failed")),
            PurgeOutcome::Committed => Ok(group_by_storage_node(&self.locations)),
        }
    }
}

/// The files a storage node could not be asked to delete, to record.
#[derive(Debug)]
pub struct FailedDeletion {
    pub node_id: u128,
    pub document_ids: Vec<u128>,
}

/// After contacting a storage node about a deletion: an unreachable node's
/// files are recorded as failed deletions; a reached node's answer is not
/// awaited.
pub fn after_node_contact(group: NodeDeletion, reached: bool) -> (r: Option<FailedDeletion>)
    ensures
        reached ==> r is None,
        !reached ==> (r matches Some(f) && f.node_id == group.node_id && f.document_ids@
            == group.document_ids@),
{
    if reached {
        None
    } else {
        Some(FailedDeletion { node_id: group.node_id, document_ids: group.document_ids })
    }
}

// ---------------------------------------------------------- password change

/// The refusal for a new password the hasher rejects (one longer than
/// `argon2` takes).
pub open spec fn hashing_refusal(password: Seq<char>) -> Option<(Code, Seq<char>)> {
    if encode_utf8(password).len() <= 0xFFFF_FFFF {
        None
    } else {
        Some((Code::Internal, "Password hashing failed"@))
    }
}

/// A password change the caller may make, waiting for whether the account
/// exists.
pub struct ChangePasswordCheck {
    claims: Claims,
    request: ChangePasswordRequest,
}

/// A password change by a plain user, waiting for the stored hash of the
/// account's current password.
pub struct ChangePasswordVerify {
    request: ChangePasswordRequest,
}

/// A password change ready to be stored: the account, and the hash of its
/// new password; it waits for the time of the change.
pub struct ChangePasswordStore {
    user_name: String,
    password_hash: String,
}

/// What a password change does once the account is known to exist.
pub enum ChangePasswordNext {
    /// A plain user must prove the current password first.
    VerifyCurrent(ChangePasswordVerify),
    /// An admin's change is stored directly.
    Store(ChangePasswordStore),
}

fn hash_new_password(user_name: String, new_password: &String) -> (r: Result<
    ChangePasswordStore,
    Status,
>)
    ensures
        hashing_refusal(new_password@) matches Some((c, m)) ==> (r matches Err(s) && status_is(
            s,
            c,
            m,
        )),
        hashing_refusal(new_password@) is None ==> (r matches Ok(st) && st.user() == user_name@
            && argon2_verifies(encode_utf8(new_password@), st.hash())),
{
    match hash_password(new_password.as_str().as_bytes()) {
        Ok(h) => Ok(ChangePasswordStore { user_name, password_hash: h }),
        Err(_) => Err(Status::new(Code::Internal, "Password hashing failed")),
    }
}

/// Starts a password change: only the account's owner or an admin may.
pub fn change_password(claims: Option<Claims>, request: ChangePasswordRequest) -> (r: Result<
    ChangePasswordCheck,
    Status,
>)
    ensures
        account_call_refusal(claims, request.user_name@) matches Some((c, m)) ==> (r matches Err(
            s,
        ) && status_is(s, c, m)),
        account_call_refusal(claims, request.user_name@) is None ==> (r matches Ok(n)
            && n.caller() == claims->0 && n.request() == request),
{
    match check_caller(claims, &request.user_name) {
        Ok(c) => Ok(ChangePasswordCheck { claims: c, request }),
        Err(s) => Err(s),
    }
}

impl ChangePasswordCheck {
    /// Who asks for the change.
    pub closed spec fn caller(&self) -> Claims {
        self.claims
    }

    /// The change asked for.
    pub closed spec fn request(&self) -> ChangePasswordRequest {
        self.request
    }

    /// The account to look up.
    pub fn user_name(&self) -> (r: &str)
        ensures
            r@ == self.request().user_name@,
    {
        self.request.user_name.as_str()
    }

    /// Takes whether the account exists (`None`: the query failed). A plain
    /// user goes on to prove the current password; an admin's new password
    /// is hashed for storing.
    pub fn on_account(self, exists: Option<bool>) -> (r: Result<ChangePasswordNext, Status>)
        ensures
            account_lookup_refusal(exists) matches Some((c, m)) ==> (r matches Err(s)
                && status_is(s, c, m)),
            account_lookup_refusal(exists) is None && self.caller().role == Role::User ==> (
            r matches Ok(ChangePasswordNext::VerifyCurrent(v)) && v.request() == self.request()),
            account_lookup_refusal(exists) is None && self.caller().role == Role::Admin ==> (
            match hashing_refusal(self.request().new_password@) {
                Some((c, m)) => r matches Err(s) && status_is(s, c, m),
                None => r matches Ok(ChangePasswordNext::Store(st)) && st.user()
                    == self.request().user_name@ && argon2_verifies(
                    encode_utf8(self.request().new_password@),
                    st.hash(),
                ),
            }),
    {
        match check_account(exists) {
            Err(s) => return Err(s),
            Ok(()) => {},
        }
        if needs_current_password(&self.claims) {
            return Ok(ChangePasswordNext::VerifyCurrent(ChangePasswordVerify { request: self.request }));
        }
        let new_password = self.request.new_password;
        match hash_new_password(self.request.user_name, &new_password) {
            Ok(st) => Ok(ChangePasswordNext::Store(st)),
            Err(s) => Err(s),
        }
    }
}

impl ChangePasswordVerify {
    /// The change asked for.
    pub closed spec fn request(&self) -> ChangePasswordRequest {
        self.request
    }

    /// The account whose stored hash to read.
    pub fn user_name(&self) -> (r: &str)
        ensures
            r@ == self.request().user_name@,
    {
        self.request.user_name.as_str()
    }

    /// Takes the stored hash of the current password (`None`: the query
    /// failed). The change goes on only when the given current password
    /// matches it.
    pub fn on_stored_hash(self, stored_hash: Option<String>) -> (r: Result<
        ChangePasswordStore,
        Status,
    >)
        ensures
            stored_hash is None ==> (r matches Err(s) && status_is(
                s,
                Code::Internal,
                database_error(),
            )),
            stored_hash matches Some(h) && !argon2_verifies(
                encode_utf8(self.request().current_password@),
                h@,
            ) ==> (r matches Err(s) && status_is(s, Code::PermissionDenied, "Invalid user password"@)),
            stored_hash matches Some(h) && argon2_verifies(
                encode_utf8(self.request().current_password@),
                h@,
            ) ==> match hashing_refusal(self.request().new_password@) {
                Some((c, m)) => r matches Err(s) && status_is(s, c, m),
                None => r matches Ok(st) && st.user() == self.request().user_name@
                    && argon2_verifies(encode_utf8(self.request().new_password@), st.hash()),
            },
    {
        let h = match stored_hash {
            None => return Err(database_failure()),
            Some(h) => h,
        };
        match check_current_password(self.request.current_password.as_str().as_bytes(), h.as_str()) {
            Err(s) => return Err(s),
            Ok(()) => {},
        }
        let new_password = self.request.new_password;
        hash_new_password(self.request.user_name, &new_password)
    }
}

impl ChangePasswordStore {
    /// The account whose password changes.
    pub closed spec fn user(&self) -> Seq<char> {
        self.user_name@
    }

    /// The hash to store.
    pub closed spec fn hash(&self) -> Seq<char> {
        self.password_hash@
    }

    /// The account whose password changes.
    pub fn user_name(&self) -> (r: &str)
        ensures
            r@ == self.user(),
    {
        self.user_name.as_str()
    }

    /// The hash to store.
    pub fn password_hash(&self) -> (r: &str)
        ensures
            r@ == self.hash(),
    {
        self.password_hash.as_str()
    }

    /// Takes the current time (seconds since the epoch): the change is
    /// written with it as the account's `tokens_valid_after`, so that every
    /// token issued before it is refused.
    pub fn on_clock(self, now: i64) -> (r: PasswordWrite)
        ensures
            r.user() == self.user(),
            r.hash() == self.hash(),
            r.valid_after() == now,
    {
        PasswordWrite {
            user_name: self.user_name,
            password_hash: self.password_hash,
            tokens_valid_after: now,
        }
    }
}

/// The write of a password change: the account, the new hash, and the new
/// `tokens_valid_after`.
pub struct PasswordWrite {
    user_name: String,
    password_hash: String,
    tokens_valid_after: i64,
}

impl PasswordWrite {
    /// The account whose password changes.
    pub closed spec fn user(&self) -> Seq<char> {
        self.user_name@
    }

    /// The hash to store.
    pub closed spec fn hash(&self) -> Seq<char> {
        self.password_hash@
    }

    /// The `tokens_valid_after` to store.
    pub closed spec fn valid_after(&self) -> i64 {
        self.tokens_valid_after
    }

    /// The account whose password changes.
    pub fn user_name(&self) -> (r: &str)
        ensures
            r@ == self.user(),
    {
        self.user_name.as_str()
    }

    /// The hash to store.
    pub fn password_hash(&self) -> (r: &str)
        ensures
            r@ == self.hash(),
    {
        self.password_hash.as_str()
    }

    /// The `tokens_valid_after` to store: the time of the change.
    pub fn tokens_valid_after(&self) -> (r: i64)
        ensures
            r == self.valid_after(),
    {
        self.tokens_valid_after
    }

    /// Takes whether the write succeeded.
    pub fn on_stored(self, stored: bool) -> (r: Result<(), Status>)
        ensures
            stored ==> r is Ok,
            !stored ==> (r matches Err(s) && status_is(s, Code::Internal, database_error())),
    {
        if stored {
            Ok(())
        } else {
            Err(database_failure())
        }
    }
}

// ---------------------------------------------------------- renaming

/// A renaming the caller may make, waiting for whether the account exists.
pub struct ChangeUserNameCheck {
    request: ChangeUserNameRequest,
}

/// A renaming of an existing account, ready to be stored; it waits for the
/// time of the renaming.
pub struct ChangeUserNameStore {
    request: ChangeUserNameRequest,
}

/// Starts renaming an account: only its owner or an admin may.
pub fn change_user_name(claims: Option<Claims>, request: ChangeUserNameRequest) -> (r: Result<
    ChangeUserNameCheck,
    Status,
>)
    ensures
        account_call_refusal(claims, request.current_user_name@) matches Some((c, m)) ==> (
        r matches Err(s) && status_is(s, c, m)),
        account_call_refusal(claims, request.current_user_name@) is None ==> (r matches Ok(n)
            && n.request() == request),
{
    match check_caller(claims, &request.current_user_name) {
        Ok(_) => Ok(ChangeUserNameCheck { request }),
        Err(s) => Err(s),
    }
}

impl ChangeUserNameCheck {
    /// The renaming asked for.
    pub closed spec fn request(&self) -> ChangeUserNameRequest {
        self.request
    }

    /// The account to look up.
    pub fn current_user_name(&self) -> (r: &str)
        ensures
            r@ == self.request().current_user_name@,
    {
        self.request.current_user_name.as_str()
    }

    /// Takes whether the account exists (`None`: the query failed).
    pub fn on_account(self, exists: Option<bool>) -> (r: Result<ChangeUserNameStore, Status>)
        ensures
            account_lookup_refusal(exists) matches Some((c, m)) ==> (r matches Err(s)
                && status_is(s, c, m)),
            account_lookup_refusal(exists) is None ==> (r matches Ok(st) && st.request()
                == self.request()),
    {
        match check_account(exists) {
            Ok(()) => Ok(ChangeUserNameStore { request: self.request }),
            Err(s) => Err(s),
        }
    }
}

impl ChangeUserNameStore {
    /// The renaming to store.
    pub closed spec fn request(&self) -> ChangeUserNameRequest {
        self.request
    }

    /// The account's current name.
    pub fn current_user_name(&self) -> (r: &str)
        ensures
            r@ == self.request().current_user_name@,
    {
        self.request.current_user_name.as_str()
    }

    /// The account's new name.
    pub fn new_user_name(&self) -> (r: &str)
        ensures
            r@ == self.request().new_user_name@,
    {
        self.request.new_user_name.as_str()
    }

    /// Takes the current time (seconds since the epoch): the renaming is
    /// written with it as the account's `tokens_valid_after`, so that every
    /// token issued before it is refused.
    pub fn on_clock(self, now: i64) -> (r: RenameWrite)
        ensures
            r.request() == self.request(),
            r.valid_after() == now,
    {
        RenameWrite { request: self.request, tokens_valid_after: now }
    }
}

/// The write of a renaming: the names, and the new `tokens_valid_after`.
pub struct RenameWrite {
    request: ChangeUserNameRequest,
    tokens_valid_after: i64,
}

impl RenameWrite {
    /// The renaming to store.
    pub closed spec fn request(&self) -> ChangeUserNameRequest {
        self.request
    }

    /// The `tokens_valid_after` to store.
    pub closed spec fn valid_after(&self) -> i64 {
        self.tokens_valid_after
    }

    /// The account's current name.
    pub fn current_user_name(&self) -> (r: &str)
        ensures
            r@ == self.request().current_user_name@,
    {
        self.request.current_user_name.as_str()
    }

    /// The account's new name.
    pub fn new_user_name(&self) -> (r: &str)
        ensures
            r@ == self.request().new_user_name@,
    {
        self.request.new_user_name.as_str()
    }

    /// The `tokens_valid_after` to store: the time of the renaming.
    pub fn tokens_valid_after(&self) -> (r: i64)
        ensures
            r == self.valid_after(),
    {
        self.tokens_valid_after
    }

    /// Takes whether the write succeeded; it fails when the new name is
    /// taken.
    pub fn on_stored(self, stored: bool) -> (r: Result<(), Status>)
        ensures
            stored ==> r is Ok,
            !stored ==> (r matches Err(s) && status_is(
                s,
                Code::AlreadyExists,
                "Username is already in use"@,
            )),
    {
        if stored {
            Ok(())
        } else {
            Err(Status::new(Code::AlreadyExists, "Username is already in use"))
        }
    }
}

} // verus!
