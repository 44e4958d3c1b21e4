use vstd::prelude::*;
use argon2::password_hash::{PasswordHasher, PasswordVerifier};
use jsonwebtoken::errors::ErrorKind;
use jsonwebtoken::{Algorithm, DecodingKey, Validation};
use serde_json::value::RawValue;
use crate::json::{flat_object, lacks_member, member_text, object_text, plain_key, scalar_text};
use crate::text::join;
use super::types::jwt_types::{claims_json, claims_json_is_flat, Claims};
use super::types::{token_claims_json, token_claims_json_is_flat, TokenClaims};

verus! {

/// The HS256 token of a claims text, as `jsonwebtoken::encode` writes it
/// with `Header::default()` and the HMAC key `secret`: the base64url text of
/// the header's JSON, a dot, the base64url text of the UTF-8 bytes of
/// `claims_json`, a dot, and the base64url text of the HMAC-SHA256 of the
/// first two parts.
pub uninterp spec fn hs256_token(claims_json: Seq<char>, secret: Seq<u8>) -> Seq<char>;

/// Whether `jsonwebtoken::decode`, with the key `secret` and HS256 as the
/// only algorithm, accepts the signature of `jwt`: the part before its
/// second-to-last dot is the base64url text of a header naming HS256, and
/// the part after its last dot is the base64url text of the HMAC-SHA256,
/// under `secret`, of the text before that dot.
pub uninterp spec fn hs256_signed(jwt: Seq<char>, secret: Seq<u8>) -> bool;

/// The claims' text `jsonwebtoken::dangerous::insecure_decode` reads from a
/// token without checking its signature (`None`: the header or the claims
/// part does not read).
pub uninterp spec fn unverified_claims_text(jwt: Seq<char>) -> Option<Seq<char>>;

/// The display text of the error `jsonwebtoken::decode` (HS256 only, key
/// `secret`) raises for `jwt` when it refuses it other than at the
/// validation of its claims: a malformed token, a header that does not read,
/// another algorithm, a bad signature, claims that do not read.
pub uninterp spec fn hs256_refusal(jwt: Seq<char>, secret: Seq<u8>) -> Seq<char>;

/// Whether Argon2 (with the algorithm, version, parameters and salt that the
/// PHC string `phc` records) turns `password` into the hash `phc` records.
pub uninterp spec fn argon2_verifies(password: Seq<u8>, phc: Seq<char>) -> bool;

/// `s` begins with `p`.
pub open spec fn has_prefix(s: Seq<char>, p: Seq<char>) -> bool {
    p.len() <= s.len() && s.subrange(0, p.len() as int) == p
}

/// A PHC string of one of the Argon2 variants: `$argon2id$`, `$argon2i$` or
/// `$argon2d$` followed by the rest of the string.
pub open spec fn argon2_phc(h: Seq<char>) -> bool {
    has_prefix(h, "$argon2id$"@) || has_prefix(h, "$argon2i$"@) || has_prefix(h, "$argon2d$"@)
}

/// The text of a JSON object: it opens with `{` and closes with `}`.
pub open spec fn braced(text: Seq<char>) -> bool {
    text.len() >= 2 && text[0] == '{' && text[text.len() - 1] == '}'
}

/// The claims text a token check handed back, if it got as far as the claims.
pub open spec fn accepted_payload<E>(r: Result<String, E>) -> Option<Seq<char>> {
    match r {
        Ok(p) => Some(p@),
        Err(_) => None,
    }
}

/// `accepted` is what a check of the token `jwt` with the key `secret` may
/// hand back: when `jwt` is the token signed with `secret` for the text of a
/// JSON object, the claims read back as exactly that text.
pub open spec fn reads_back(jwt: Seq<char>, secret: Seq<u8>, accepted: Option<Seq<char>>) -> bool {
    forall|c: Seq<char>|
        braced(c) && #[trigger] hs256_token(c, secret) == jwt ==> (accepted matches Some(p)
            ==> p == c)
}

/// `outcome` is what a check of the token `jwt` with the key `secret`
/// hands back (`None`: the token was refused before its claims): only a
/// token signed with `secret` gets as far as its claims, which read back as
/// signed; the token signed with `secret` for a flat JSON object always
/// gets that far; and one whose claims have no `exp` fails their validation.
pub open spec fn checks_token(jwt: Seq<char>, secret: Seq<u8>, outcome: Option<CheckedToken>) -> bool {
    &&& outcome is Some ==> hs256_signed(jwt, secret)
    &&& reads_back(
        jwt,
        secret,
        match outcome {
            Some(t) => Some(t.payload@),
            None => None,
        },
    )
    &&& forall|c: Seq<char>|
        flat_object(c) && #[trigger] hs256_token(c, secret) == jwt ==> (outcome matches Some(t)
            && t.payload@ == c)
    &&& forall|c: Seq<char>|
        flat_object(c) && lacks_member(c, "exp"@) && #[trigger] hs256_token(c, secret) == jwt
            ==> (outcome matches Some(t) ==> t.verdict is Err)
}

/// A token check never lets through claims without an expiry: the token
/// signed with `secret` for a flat JSON object that has no `exp` member,
/// checked with the same key, reads back as that object, and the verdict on
/// its claims is a failure.
pub proof fn claims_without_exp_are_refused(
    claims: Seq<char>,
    secret: Seq<u8>,
    outcome: Option<CheckedToken>,
)
    requires
        flat_object(claims),
        lacks_member(claims, "exp"@),
        checks_token(hs256_token(claims, secret), secret, outcome),
    ensures
        outcome matches Some(t) && t.payload@ == claims && t.verdict is Err,
        hs256_signed(hs256_token(claims, secret), secret),
{
}

/// Why a token was not accepted.
#[derive(Debug)]
pub struct JwtFailure {
    /// The token is well formed and signed but its `exp` has passed.
    pub expired: bool,
    /// The failure comes after the signature was verified: a claim failed
    /// validation.
    pub claims_stage: bool,
    /// The failure is a JSON error: the header, or the claims after the
    /// signature was verified, could not be read.
    pub json: bool,
    /// The description of the failure.
    pub message: String,
}

/// A token whose signature was verified: its claims' JSON text, and the
/// verdict of the validation of its claims (`exp` and the other registered
/// claims). The claims are to be read into their type first: a text that
/// does not read fails before the verdict counts.
#[derive(Debug)]
pub struct CheckedToken {
    pub payload: String,
    pub verdict: Result<(), JwtFailure>,
}

/// The checked token of a token check that got as far as the claims.
pub open spec fn checked_outcome<E>(r: Result<CheckedToken, E>) -> Option<CheckedToken> {
    match r {
        Ok(t) => Some(t),
        Err(_) => None,
    }
}

/// A failed password hash computation or check.
#[derive(Clone, Copy, Debug, PartialEq, Eq, Structural)]
pub struct PasswordHashError;

/// A value that travels as the claims of a token.
pub trait TokenPayload {
    /// The JSON text of the claims.
    spec fn payload(&self) -> Seq<char>;

    /// The claims' text is a flat JSON object, which the signer accepts.
    proof fn payload_is_flat(&self)
        ensures
            flat_object(self.payload()),
    ;

    /// Writes the claims as JSON text.
    fn to_payload(&self) -> (r: String)
        ensures
            r@ == self.payload(),
    ;
}

impl TokenPayload for Claims {
    open spec fn payload(&self) -> Seq<char> {
        claims_json(self.sub@, self.role, self.exp as int, self.iat as int)
    }

    proof fn payload_is_flat(&self) {
        claims_json_is_flat(self.sub@, self.role, self.exp as int, self.iat as int);
    }

    fn to_payload(&self) -> (r: String) {
        self.to_json()
    }
}

impl TokenPayload for TokenClaims {
    open spec fn payload(&self) -> Seq<char> {
        token_claims_json(self.sub@, self.user_role, self.exp as int)
    }

    proof fn payload_is_flat(&self) {
        token_claims_json_is_flat(self.sub@, self.user_role, self.exp as int);
    }

    fn to_payload(&self) -> (r: String) {
        self.to_json()
    }
}

/// `jsonwebtoken::encode` with `Header::default()` (HS256) and
/// `EncodingKey::from_secret(secret)`, over claims given as JSON text (passed
/// through `serde_json::value::RawValue`, so the text is signed as it is).
/// Claimed: a token it returns is `hs256_token(claims_json, secret)`, and it
/// returns one for a flat JSON object (valid JSON, which `RawValue` accepts;
/// an HMAC key of any length is accepted, and signing with it cannot fail);
/// the token it returns carries the HS256 header and the HMAC under `secret`
/// that `decode` checks.
#[verifier::external_body]
fn encode_hs256(claims_json: &str, secret: &[u8]) -> (r: Option<String>)
    ensures
        r matches Some(t) ==> t@ == hs256_token(claims_json@, secret@),
        r matches Some(t) ==> hs256_signed(t@, secret@),
        flat_object(claims_json@) ==> r is Some,
{
    let raw = match serde_json::value::RawValue::from_string(claims_json.to_string()) {
        Ok(raw) => raw,
        Err(_) => return None,
    };
    let key = jsonwebtoken::EncodingKey::from_secret(secret);
    jsonwebtoken::encode(&jsonwebtoken::Header::default(), &raw, &key).ok()
}

/// Signs `jwt_claims` into an HS256 token with the key `secret`.
pub fn generate_jwt<T: TokenPayload>(jwt_claims: &T, secret: &[u8]) -> (r: Option<String>)
    ensures
        r matches Some(t) && t@ == hs256_token(jwt_claims.payload(), secret@) && hs256_signed(
            t@,
            secret@,
        ),
{
    proof {
        jwt_claims.payload_is_flat();
    }
    let payload = jwt_claims.to_payload();
    encode_hs256(payload.as_str(), secret)
}

/// `jsonwebtoken::decode` with `Validation::new(Algorithm::HS256)` and
/// `DecodingKey::from_secret(secret)`, keeping the claims as JSON text
/// (`serde_json::value::RawValue`). On failure it reports whether the error
/// kind is `ExpiredSignature`, whether it is a failed validation of the
/// claims, whether it is `Json`, and the error's display text.
/// Claimed, from the order in which `decode` works (header, algorithm,
/// signature, claims' text, claims' validation):
/// - it accepts, or fails a validation of the claims, only after the
///   signature held; `ExpiredSignature` is a failed validation, raised only
///   once the header and the claims' text read (so `insecure_decode` reads
///   them too), and so is every other failure it reports as a failed
///   validation;
/// - any other failure comes from the token and the key alone, with the
///   message named `hs256_refusal`; a JSON error after a header that reads (which
///   `insecure_decode` then reads too, together with the claims' text) also
///   comes after the signature;
/// - a token signed with `secret` for the text of a JSON object, when
///   accepted, gives back that text (`RawValue` keeps it as it is);
/// - such a token for a flat JSON object fails only at the claims (a
///   validation, or `Json` for claims that are not the expected shape), and
///   one without an `exp` member fails (`exp` is a required claim).
/// Not claimed: when the claims pass; the `exp` check compares with the
/// current time.
#[verifier::external_body]
fn decode_hs256(jwt: &str, secret: &[u8]) -> (r: Result<String, JwtFailure>)
    ensures
        reads_back(jwt@, secret@, accepted_payload(r)),
        r is Ok ==> hs256_signed(jwt@, secret@),
        r matches Err(f) && f.claims_stage ==> hs256_signed(jwt@, secret@),
        r matches Err(f) ==> (f.expired ==> f.claims_stage),
        r matches Err(f) && f.claims_stage ==> unverified_claims_text(jwt@) is Some,
        r matches Err(f) ==> (!f.claims_stage ==> f.message@ == hs256_refusal(jwt@, secret@)),
        r matches Err(f) && f.json && unverified_claims_text(jwt@) is Some ==> hs256_signed(
            jwt@,
            secret@,
        ),
        forall|c: Seq<char>|
            flat_object(c) && #[trigger] hs256_token(c, secret@) == jwt@ ==> (r matches Err(f)
                ==> f.claims_stage || f.json),
        forall|c: Seq<char>|
            flat_object(c) && lacks_member(c, "exp"@) && #[trigger] hs256_token(c, secret@)
                == jwt@ ==> r is Err,
{
    let key = DecodingKey::from_secret(secret);
    match jsonwebtoken::decode::<Box<RawValue>>(jwt, &key, &Validation::new(Algorithm::HS256)) {
        Ok(data) => Ok(data.claims.get().to_string()),
        Err(e) => Err(JwtFailure {
            expired: matches!(e.kind(), ErrorKind::ExpiredSignature),
            claims_stage: matches!(e.kind(), ErrorKind::ExpiredSignature | ErrorKind::ImmatureSignature
                | ErrorKind::MissingRequiredClaim(_) | ErrorKind::InvalidClaimFormat(_)
                | ErrorKind::InvalidAudience | ErrorKind::InvalidIssuer | ErrorKind::InvalidSubject),
            json: matches!(e.kind(), ErrorKind::Json(_)),
            message: e.to_string(),
        }),
    }
}

/// `jsonwebtoken::dangerous::insecure_decode`, keeping the claims as JSON
/// text: the claims of a token whose header reads, without checking its
/// signature. Claimed: its result is named `unverified_claims_text`; for the
/// token signed with any key for the text of a JSON object, a text it gives
/// is that text, and for a flat JSON object it gives one.
#[verifier::external_body]
fn unverified_claims(jwt: &str) -> (r: Option<String>)
    ensures
        match r {
            Some(p) => unverified_claims_text(jwt@) == Some(p@),
            None => unverified_claims_text(jwt@) is None,
        },
        forall|c: Seq<char>, k: Seq<u8>|
            braced(c) && #[trigger] hs256_token(c, k) == jwt@ ==> (r matches Some(p) ==> p@ == c),
        forall|c: Seq<char>, k: Seq<u8>|
            flat_object(c) && #[trigger] hs256_token(c, k) == jwt@ ==> r is Some,
{
    match jsonwebtoken::dangerous::insecure_decode::<Box<RawValue>>(jwt) {
        Ok(data) => Some(data.claims.get().to_string()),
        Err(_) => None,
    }
}

/// The text of a flat JSON object is braced.
proof fn flat_object_is_braced(c: Seq<char>)
    requires
        flat_object(c),
    ensures
        braced(c),
{
    let ms = choose|ms: Seq<(Seq<char>, Seq<char>)>|
        #[trigger] object_text(ms) == c && forall|i: int|
            0 <= i < ms.len() ==> plain_key(#[trigger] ms[i].0) && scalar_text(ms[i].1);
    let inner = join(ms.map_values(|m: (Seq<char>, Seq<char>)| member_text(m)), seq![',']);
    assert(c == seq!['{'] + inner + seq!['}']);
    assert(c[0] == '{');
    assert(c[c.len() - 1] == '}');
}

/// What a token check answers once `decode` answered `decoded`: accepted
/// claims with a passing verdict; a failure at the claims (a validation, or
/// a JSON error once the header reads), with the claims' text that
/// `insecure_decode` reads (`unverified`) and the failure as verdict;
/// any other failure as it is.
pub open spec fn checked_token_spec(
    decoded: Result<String, JwtFailure>,
    unverified: Option<Seq<char>>,
    r: Result<CheckedToken, JwtFailure>,
) -> bool {
    match decoded {
        Ok(p) => r matches Ok(t) && t.payload@ == p@ && t.verdict is Ok,
        Err(f) => if (f.claims_stage || f.json) && unverified is Some {
            r matches Ok(t) && t.payload@ == unverified->0 && t.verdict == Err::<(), JwtFailure>(f)
        } else {
            r == Err::<CheckedToken, JwtFailure>(f)
        },
    }
}

/// Turns the answer of `decode` into the answer of the token check, given
/// the claims' text read without the signature check (`unverified`), which
/// counts only where `decode` failed at the claims.
pub fn checked_token(decoded: Result<String, JwtFailure>, unverified: Option<String>) -> (r: Result<
    CheckedToken,
    JwtFailure,
>)
    ensures
        checked_token_spec(
            decoded,
            match unverified {
                Some(u) => Some(u@),
                None => None,
            },
            r,
        ),
{
    match decoded {
        Ok(payload) => Ok(CheckedToken { payload, verdict: Ok(()) }),
        Err(f) => {
            if !(f.claims_stage || f.json) {
                return Err(f);
            }
            match unverified {
                Some(payload) => Ok(CheckedToken { payload, verdict: Err(f) }),
                None => Err(f),
            }
        },
    }
}

/// Whether the token check needs the claims' text of a token `decode`
/// refused: only where it failed at the claims.
fn failed_at_claims(decoded: &Result<String, JwtFailure>) -> (r: bool)
    ensures
        r == (decoded matches Err(f) && (f.claims_stage || f.json)),
{
    match decoded {
        Ok(_) => false,
        Err(f) => f.claims_stage || f.json,
    }
}

/// Checks a token with the key `secret` as `jsonwebtoken::decode` does:
/// header, algorithm (HS256), signature, then the claims. A token whose
/// signature was verified comes back with its claims' text and the verdict
/// of their validation, so that the claims can be read into their type
/// before the verdict counts, as `decode` reads them before validating. A
/// refused token is never refused as expired (expiry is a verdict on the
/// claims), and its failure is `decode`'s refusal of the token.
pub fn verificate_jwt(jwt: &str, secret: &[u8]) -> (r: Result<CheckedToken, JwtFailure>)
    ensures
        checks_token(jwt@, secret@, checked_outcome(r)),
        r matches Err(f) ==> !f.expired && !f.claims_stage && f.message@ == hs256_refusal(
            jwt@,
            secret@,
        ),
{
    proof {
        assert forall|c: Seq<char>| flat_object(c) implies braced(c) by {
            flat_object_is_braced(c);
        }
    }
    let decoded = decode_hs256(jwt, secret);
    let unverified = if failed_at_claims(&decoded) {
        unverified_claims(jwt)
    } else {
        None
    };
    checked_token(decoded, unverified)
}

/// The outcome of reading a checked token's claims into their type
/// (`decoded`: the claims, or the description of why the text is not such
/// claims): a text that does not read fails as a JSON error, before the
/// verdict of the claims' validation counts.
pub fn claims_verdict<T>(checked: CheckedToken, decoded: Result<T, String>) -> (r: Result<
    T,
    JwtFailure,
>)
    ensures
        decoded matches Err(e) ==> (r matches Err(f) && !f.expired && !f.claims_stage && f.json
            && f.message@ == "JSON error: "@ + e@),
        decoded is Ok && checked.verdict is Ok ==> r == Ok::<T, JwtFailure>(decoded->Ok_0),
        decoded is Ok && checked.verdict is Err ==> r == Err::<T, JwtFailure>(checked.verdict->Err_0),
{
    match decoded {
        Err(e) => {
            let mut message = String::new();
            message.append("JSON error: ");
            message.append(e.as_str());
            Err(JwtFailure { expired: false, claims_stage: false, json: true, message })
        },
        Ok(c) => match checked.verdict {
            Ok(()) => Ok(c),
            Err(f) => Err(f),
        },
    }
}

/// Argon2id (default parameters) over `password` with a fresh random salt
/// from `OsRng`, as a PHC string. Claimed: a hash it returns verifies
/// `password` (the round trip the `argon2` documentation shows), and it
/// fails only for a password longer than `argon2::MAX_PWD_LEN` bytes (the one
/// input check that default parameters and a generated salt leave). The
/// hash is the PHC string `PasswordHash` displays, which starts with `$` and
/// the algorithm's name, `argon2id` by default, then `$`.
/// Not claimed: the salt, hence the hash, is random.
#[verifier::external_body]
pub fn hash_password(password: &[u8]) -> (r: Result<String, PasswordHashError>)
    ensures
        r matches Ok(h) ==> argon2_verifies(password@, h@),
        r matches Ok(h) ==> has_prefix(h@, "$argon2id$"@),
        r is Ok <==> password@.len() <= 0xFFFF_FFFF,
{
    let salt = argon2::password_hash::SaltString::generate(
        &mut argon2::password_hash::rand_core::OsRng,
    );
    match argon2::Argon2::default().hash_password(password, &salt) {
        Ok(hash) => Ok(hash.to_string()),
        Err(_) => Err(PasswordHashError),
    }
}

/// `PasswordHash::new(password_hash)` then `Argon2::default().verify_password`.
/// Claimed: it succeeds exactly when `argon2_verifies(password, password_hash)`,
/// and only for the PHC string of an Argon2 variant: `PasswordHash::new`
/// refuses a string that does not start with `$` and an algorithm name, and
/// `Argon2` refuses any algorithm but `argon2d`, `argon2i` and `argon2id`,
/// and a hash without its salt and output fields.
#[verifier::external_body]
pub fn verify_password_hash(password: &[u8], password_hash: &str) -> (r: Result<
    (),
    PasswordHashError,
>)
    ensures
        r is Ok <==> argon2_verifies(password@, password_hash@),
        r is Ok ==> argon2_phc(password_hash@),
{
    let parsed = match argon2::password_hash::PasswordHash::new(password_hash) {
        Ok(parsed) => parsed,
        Err(_) => return Err(PasswordHashError),
    };
    match argon2::Argon2::default().verify_password(password, &parsed) {
        Ok(()) => Ok(()),
        Err(_) => Err(PasswordHashError),
    }
}

} // verus!
