use vstd::prelude::*;
use vstd::string::StringSliceAdditionalSpecFns;
use crate::common::auth::{
    argon2_phc, argon2_verifies, has_prefix, hash_password, verify_password_hash,
    PasswordHashError,
};

verus! {

/// Hashes a password given as text (its UTF-8 bytes), with a fresh salt.
pub fn _hash_password(password: &str) -> (r: Result<String, PasswordHashError>)
    ensures
        r matches Ok(h) ==> argon2_verifies(password.spec_bytes(), h@),
        r is Ok <==> password.spec_bytes().len() <= 0xFFFF_FFFF,
        r matches Ok(h) ==> has_prefix(h@, "$argon2id$"@),
{
    hash_password(password.as_bytes())
}

/// Checks a password against a stored PHC hash.
pub fn _verify_password_hash(password_hash: &str, password: &[u8]) -> (r: Result<
    (),
    PasswordHashError,
>)
    ensures
        r is Ok <==> argon2_verifies(password@, password_hash@),
        r is Ok ==> argon2_phc(password_hash@),
{
    verify_password_hash(password, password_hash)
}

} // verus!
