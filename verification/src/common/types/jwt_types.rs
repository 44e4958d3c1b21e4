use vstd::prelude::*;
use crate::json::{flat_object, json_string, object_text, object_text_of_four, push_json_string};
use crate::text::{decimal_string, int_decimal};

verus! {

/// The role carried by a session token.
#[derive(Clone, Copy, Debug, PartialEq, Eq, Structural)]
pub enum Role {
    User,
    Admin,
}

/// The session role with the wire number `value`, if any (`0` user, `1` admin).
pub open spec fn role_of_number(value: int) -> Option<Role> {
    if value == 0 {
        Some(Role::User)
    } else if value == 1 {
        Some(Role::Admin)
    } else {
        None
    }
}

/// The name a session role has on the wire.
pub open spec fn role_name(role: Role) -> Seq<char> {
    match role {
        Role::User => "User"@,
        Role::Admin => "Admin"@,
    }
}

impl Role {
    /// The role with wire number `value`; other numbers are refused.
    pub fn try_from(value: i32) -> (r: Result<Role, &'static str>)
        ensures
            role_of_number(value as int) matches Some(role) ==> r == Ok::<Role, &'static str>(
                role,
            ),
            role_of_number(value as int) is None ==> (r matches Err(m) && m@
                == "Bad enum conversion"@),
    {
        match value {
            0 => Ok(Role::User),
            1 => Ok(Role::Admin),
            _ => Err("Bad enum conversion"),
        }
    }

    /// The role's name as it is written in a token.
    pub fn name(&self) -> (r: &'static str)
        ensures
            r@ == role_name(*self),
    {
        match self {
            Role::User => "User",
            Role::Admin => "Admin",
        }
    }
}

/// Claims of a session token: subject (user name), role, expiry and issue time.
#[derive(Debug)]
pub struct Claims {
    pub sub: String,
    pub role: Role,
    pub exp: i64,
    pub iat: i64,
}

/// The JSON object of a `Claims` value: its fields in declaration order.
pub open spec fn claims_json(sub: Seq<char>, role: Role, exp: int, iat: int) -> Seq<char> {
    "{\"sub\":"@ + json_string(sub) + ",\"role\":"@ + json_string(role_name(role)) + ",\"exp\":"@
        + int_decimal(exp) + ",\"iat\":"@ + int_decimal(iat) + "}"@
}

/// The JSON text of session claims is a flat JSON object.
pub proof fn claims_json_is_flat(sub: Seq<char>, role: Role, exp: int, iat: int)
    ensures
        flat_object(claims_json(sub, role, exp, iat)),
{
    reveal_strlit("{\"sub\":");
    reveal_strlit(",\"role\":");
    reveal_strlit(",\"exp\":");
    reveal_strlit(",\"iat\":");
    reveal_strlit("}");
    reveal_strlit("sub");
    reveal_strlit("role");
    reveal_strlit("exp");
    reveal_strlit("iat");
    let ms = seq![
        ("sub"@, json_string(sub)),
        ("role"@, json_string(role_name(role))),
        ("exp"@, int_decimal(exp)),
        ("iat"@, int_decimal(iat)),
    ];
    object_text_of_four(ms[0], ms[1], ms[2], ms[3]);
    assert(object_text(ms) =~= claims_json(sub, role, exp, iat));
    assert(json_string(sub) == ms[0].1);
    assert(json_string(role_name(role)) == ms[1].1);
    assert(int_decimal(exp) == ms[2].1);
    assert(int_decimal(iat) == ms[3].1);
}

impl Claims {
    /// The claims as a compact JSON object.
    pub fn to_json(&self) -> (r: String)
        ensures
            r@ == claims_json(self.sub@, self.role, self.exp as int, self.iat as int),
    {
        let mut out = String::new();
        out.append("{\"sub\":");
        push_json_string(&mut out, self.sub.as_str());
        out.append(",\"role\":");
        push_json_string(&mut out, self.role.name());
        out.append(",\"exp\":");
        out.append(decimal_string(self.exp).as_str());
        out.append(",\"iat\":");
        out.append(decimal_string(self.iat).as_str());
        out.append("}");
        out
    }
}

} // verus!
