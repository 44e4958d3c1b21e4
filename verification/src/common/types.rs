//! Roles and token claims of the services, and the rows read from the database.
pub mod jwt_types;
pub mod sql_types;

use vstd::prelude::*;
use crate::json::{flat_object, json_string, object_text, object_text_of_three, push_json_string};
use crate::text::{decimal_string, int_decimal};

verus! {

/// The role a token grants.
#[derive(Clone, Copy, Debug, PartialEq, Eq, Structural)]
pub enum Role {
    User,
    Admin,
}

/// The role with the wire number `value`, if any (`0` user, `1` admin).
pub open spec fn role_of_number(value: int) -> Option<Role> {
    if value == 0 {
        Some(Role::User)
    } else if value == 1 {
        Some(Role::Admin)
    } else {
        None
    }
}

/// The name a role has on the wire.
pub open spec fn role_name(role: Role) -> Seq<char> {
    match role {
        Role::User => "User"@,
        Role::Admin => "Admin"@,
    }
}

impl Role {
    /// The role with wire number `value`; other numbers are refused.
    pub fn try_from(value: i32) -> (r: Result<Role, &'static str>)
        ensures
            role_of_number(value as int) matches Some(role) ==> r == Ok::<Role, &'static str>(
                role,
            ),
            role_of_number(value as int) is None ==> (r matches Err(m) && m@
                == "Bad enum conversion"@),
    {
        match value {
            0 => Ok(Role::User),
            1 => Ok(Role::Admin),
            _ => Err("Bad enum conversion"),
        }
    }

    /// The role's name as a JSON string.
    pub fn name(&self) -> (r: &'static str)
        ensures
            r@ == role_name(*self),
    {
        match self {
            Role::User => "User",
            Role::Admin => "Admin",
        }
    }
}

/// Claims of the tokens the storage service checks.
#[derive(Debug)]
pub struct TokenClaims {
    pub sub: String,
    pub user_role: Role,
    pub exp: i64,
}

/// The JSON object of a `TokenClaims` value: its fields in declaration order.
pub open spec fn token_claims_json(sub: Seq<char>, user_role: Role, exp: int) -> Seq<char> {
    "{\"sub\":"@ + json_string(sub) + ",\"user_role\":"@ + json_string(role_name(user_role))
        + ",\"exp\":"@ + int_decimal(exp) + "}"@
}

/// The JSON text of storage request claims is a flat JSON object.
pub proof fn token_claims_json_is_flat(sub: Seq<char>, user_role: Role, exp: int)
    ensures
        flat_object(token_claims_json(sub, user_role, exp)),
{
    reveal_strlit("{\"sub\":");
    reveal_strlit(",\"user_role\":");
    reveal_strlit(",\"exp\":");
    reveal_strlit("}");
    reveal_strlit("sub");
    reveal_strlit("user_role");
    reveal_strlit("exp");
    let ms = seq![
        ("sub"@, json_string(sub)),
        ("user_role"@, json_string(role_name(user_role))),
        ("exp"@, int_decimal(exp)),
    ];
    object_text_of_three(ms[0], ms[1], ms[2]);
    assert(object_text(ms) =~= token_claims_json(sub, user_role, exp));
    assert(json_string(sub) == ms[0].1);
    assert(json_string(role_name(user_role)) == ms[1].1);
    assert(int_decimal(exp) == ms[2].1);
}

impl TokenClaims {
    /// The claims as a compact JSON object.
    pub fn to_json(&self) -> (r: String)
        ensures
            r@ == token_claims_json(self.sub@, self.user_role, self.exp as int),
    {
        let mut out = String::new();
        out.append("{\"sub\":");
        push_json_string(&mut out, self.sub.as_str());
        out.append(",\"user_role\":");
        push_json_string(&mut out, self.user_role.name());
        out.append(",\"exp\":");
        out.append(decimal_string(self.exp).as_str());
        out.append("}");
        out
    }
}

} // verus!
