use vstd::prelude::*;
use crate::common::auth::{
    checked_outcome, checks_token, generate_jwt, hs256_refusal, hs256_token, verificate_jwt,
    CheckedToken, JwtFailure, TokenPayload,
};
use crate::ids::{uuid_text, uuid_to_string};
use crate::json::{flat_object, json_string, object_text, object_text_of_three, push_json_string};
use crate::text::{decimal_string, int_decimal};

verus! {

/// The role a client token claims.
#[derive(Clone, Copy, Debug, PartialEq, Eq, Structural)]
pub enum Role {
    Admin,
    User,
}

/// The name a client role has on the wire.
pub open spec fn role_name(role: Role) -> Seq<char> {
    match role {
        Role::Admin => "Admin"@,
        Role::User => "User"@,
    }
}

impl Role {
    /// The role's name as it is written in a token.
    pub fn name(&self) -> (r: &'static str)
        ensures
            r@ == role_name(*self),
    {
        match self {
            Role::Admin => "Admin",
            Role::User => "User",
        }
    }
}

/// Claims of a client token: the user's id (a UUID as its 128-bit value),
/// role and expiry.
#[derive(Debug)]
pub struct JWTClaims {
    pub sub: u128,
    pub user_role: Role,
    pub exp: i64,
}

/// The JSON object of client claims: the id as its hyphenated text.
pub open spec fn jwt_claims_json(sub: u128, user_role: Role, exp: int) -> Seq<char> {
    "{\"sub\":"@ + json_string(uuid_text(sub as nat)) + ",\"user_role\":"@ + json_string(
        role_name(user_role),
    ) + ",\"exp\":"@ + int_decimal(exp) + "}"@
}

/// The JSON text of client claims is a flat JSON object.
pub proof fn jwt_claims_json_is_flat(sub: u128, user_role: Role, exp: int)
    ensures
        flat_object(jwt_claims_json(sub, user_role, exp)),
{
    reveal_strlit("{\"sub\":");
    reveal_strlit(",\"user_role\":");
    reveal_strlit(",\"exp\":");
    reveal_strlit("}");
    reveal_strlit("sub");
    reveal_strlit("user_role");
    reveal_strlit("exp");
    let ms = seq![
        ("sub"@, json_string(uuid_text(sub as nat))),
        ("user_role"@, json_string(role_name(user_role))),
        ("exp"@, int_decimal(exp)),
    ];
    object_text_of_three(ms[0], ms[1], ms[2]);
    assert(object_text(ms) =~= jwt_claims_json(sub, user_role, exp));
    assert(json_string(uuid_text(sub as nat)) == ms[0].1);
    assert(json_string(role_name(user_role)) == ms[1].1);
    assert(int_decimal(exp) == ms[2].1);
}

impl JWTClaims {
    /// The claims as a compact JSON object.
    pub fn to_json(&self) -> (r: String)
        ensures
            r@ == jwt_claims_json(self.sub, self.user_role, self.exp as int),
    {
        let mut out = String::new();
        out.append("{\"sub\":");
        let id = uuid_to_string(self.sub);
        push_json_string(&mut out, id.as_str());
        out.append(",\"user_role\":");
        push_json_string(&mut out, self.user_role.name());
        out.append(",\"exp\":");
        out.append(decimal_string(self.exp).as_str());
        out.append("}");
        out
    }
}

impl TokenPayload for JWTClaims {
    open spec fn payload(&self) -> Seq<char> {
        jwt_claims_json(self.sub, self.user_role, self.exp as int)
    }

    proof fn payload_is_flat(&self) {
        jwt_claims_json_is_flat(self.sub, self.user_role, self.exp as int);
    }

    fn to_payload(&self) -> (r: String) {
        self.to_json()
    }
}

/// Signs client claims into an HS256 token with the key `secret`.
pub fn _generate_jwt(jwt_claims: &JWTClaims, secret: &[u8]) -> (r: Option<String>)
    ensures
        r matches Some(t) && t@ == hs256_token(
            jwt_claims_json(jwt_claims.sub, jwt_claims.user_role, jwt_claims.exp as int),
            secret@,
        ),
{
    generate_jwt(jwt_claims, secret)
}

/// Checks a client token with the key `secret`, up to its claims: their
/// JSON text and the verdict of their validation.
pub fn _verificate_jwt(jwt: &str, secret: &[u8]) -> (r: Result<CheckedToken, JwtFailure>)
    ensures
        checks_token(jwt@, secret@, checked_outcome(r)),
        r matches Err(f) ==> !f.expired && f.message@ == hs256_refusal(jwt@, secret@),
{
    verificate_jwt(jwt, secret)
}

} // verus!
