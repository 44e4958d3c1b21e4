use vstd::prelude::*;
use crate::common::valid::{
    has_lowercase, has_numeric, has_special, has_uppercase, has_valid_chars, is_valid_user_name,
    only_password_chars, some_lowercase, some_numeric, some_special, some_uppercase,
    unicode_lowercase, unicode_numeric, unicode_uppercase, valid_user_name, ValidationFailure,
};

use crate::status::{status_is, Code, Status};
use crate::text::{join, join_strings, views};

verus! {

broadcast use vstd::string::group_string_axioms;

/// Why `password_check` refused a password.
#[derive(Clone, Copy, Debug, PartialEq, Eq, Structural)]
pub enum PasswordCheckFailure {
    /// A lowercase, an uppercase, a numeric or a special character is missing.
    Complexity,
    /// A character is neither alphanumeric nor special.
    InvalidChars,
}

impl PasswordCheckFailure {
    /// The short code of the failure.
    pub fn code(&self) -> (r: &'static str)
        ensures
            *self == PasswordCheckFailure::Complexity ==> r@ == "password_complexity"@,
            *self == PasswordCheckFailure::InvalidChars ==> r@ == "invalid_chars"@,
    {
        match self {
            PasswordCheckFailure::Complexity => "password_complexity",
            PasswordCheckFailure::InvalidChars => "invalid_chars",
        }
    }

    /// The message shown to the user for the failure.
    pub fn message(&self) -> (r: &'static str)
        ensures
            *self == PasswordCheckFailure::Complexity ==> r@
                == "Password must have at least one lower case, one upper case, one number and one special character (!@#$%^&*_-+=)"@,
            *self == PasswordCheckFailure::InvalidChars ==> r@
                == "Password has invalid characters"@,
    {
        match self {
            PasswordCheckFailure::Complexity =>
                "Password must have at least one lower case, one upper case, one number and one special character (!@#$%^&*_-+=)",
            PasswordCheckFailure::InvalidChars => "Password has invalid characters",
        }
    }
}

/// A password has every required kind of character.
pub open spec fn complex_password(s: Seq<char>) -> bool {
    some_numeric(s) && some_uppercase(s) && some_lowercase(s) && some_special(s)
}

/// What `password_check` answers for a password.
pub open spec fn password_check_result(s: Seq<char>) -> Result<(), PasswordCheckFailure> {
    if !complex_password(s) {
        Err(PasswordCheckFailure::Complexity)
    } else if !only_password_chars(s) {
        Err(PasswordCheckFailure::InvalidChars)
    } else {
        Ok(())
    }
}

/// Checks a password in one pass: complexity first, then the allowed characters.
pub fn password_check(string: &str) -> (r: Result<(), PasswordCheckFailure>)
    ensures
        r == password_check_result(string@),
{
    let has_numeric = has_numeric(string).is_ok();
    let has_upper = has_uppercase(string).is_ok();
    let has_lower = has_lowercase(string).is_ok();
    let has_spec = has_special(string).is_ok();
    if !has_numeric || !has_upper || !has_lower || !has_spec {
        return Err(PasswordCheckFailure::Complexity);
    }
    if has_valid_chars(string).is_err() {
        return Err(PasswordCheckFailure::InvalidChars);
    }
    Ok(())
}

/// `password_check` accepts exactly the passwords that pass all five single
/// rules (`has_lowercase`, `has_uppercase`, `has_numeric`, `has_special`,
/// `has_valid_chars`).
pub proof fn password_check_agrees_with_rules(s: Seq<char>)
    ensures
        password_check_result(s) is Ok <==> (some_lowercase(s) && some_uppercase(s)
            && some_numeric(s) && some_special(s) && only_password_chars(s)),
{
}

/// One broken rule of the account-creation form.
#[derive(Clone, Copy, Debug, PartialEq, Eq, Structural)]
pub enum FormViolation {
    /// `user_name` does not match `^[a-zA-Z0-9._]{3,16}$`.
    UserName,
    /// `password` has fewer than 8 characters.
    PasswordLength,
    /// `password` breaks one of the character rules.
    PasswordRule(ValidationFailure),
    /// `confirm_password` differs from `password`.
    PasswordMismatch,
}

impl FormViolation {
    /// The form field the violation belongs to.
    pub fn field(&self) -> (r: &'static str)
        ensures
            *self is UserName ==> r@ == "user_name"@,
            *self is PasswordLength || *self is PasswordRule ==> r@ == "password"@,
            *self is PasswordMismatch ==> r@ == "confirm_password"@,
    {
        match self {
            FormViolation::UserName => "user_name",
            FormViolation::PasswordLength => "password",
            FormViolation::PasswordRule(_) => "password",
            FormViolation::PasswordMismatch => "confirm_password",
        }
    }

    /// The code of the broken rule.
    pub fn code(&self) -> (r: &'static str)
        ensures
            *self is UserName ==> r@ == "regex"@,
            *self is PasswordLength ==> r@ == "length"@,
            *self is PasswordMismatch ==> r@ == "must_match"@,
            *self matches FormViolation::PasswordRule(f) ==> r@ == "no lowercase"@ && f
                == ValidationFailure::NoLowercase || r@ == "no uppercase"@ && f
                == ValidationFailure::NoUppercase || r@ == "no numeric"@ && f
                == ValidationFailure::NoNumeric || r@ == "no special"@ && f
                == ValidationFailure::NoSpecial || r@ == "invalid chars"@ && f
                == ValidationFailure::InvalidChars,
    {
        match self {
            FormViolation::UserName => "regex",
            FormViolation::PasswordLength => "length",
            FormViolation::PasswordRule(f) => f.code(),
            FormViolation::PasswordMismatch => "must_match",
        }
    }

    /// The message of the broken rule.
    pub fn message(&self) -> (r: &'static str)
        ensures
            *self is UserName ==> r@ == "Invalid username"@,
            *self is PasswordLength ==> r@ == "Field must be at least 8 characters long"@,
            *self is PasswordMismatch ==> r@ == "Mismatched passwords"@,
    {
        match self {
            FormViolation::UserName => "Invalid username",
            FormViolation::PasswordLength => "Field must be at least 8 characters long",
            FormViolation::PasswordRule(f) => f.message(),
            FormViolation::PasswordMismatch => "Mismatched passwords",
        }
    }
}

/// The rules of the account-creation form, in the order they are listed:
/// the user name pattern; the password's length and its four character
/// rules; the confirmation matching the password.
pub open spec fn account_form_violations(user_name: Seq<char>, password: Seq<char>, confirm: Seq<
    char,
>) -> Seq<FormViolation> {
    (if valid_user_name(user_name) {
        seq![]
    } else {
        seq![FormViolation::UserName]
    }) + (if password.len() >= 8 {
        seq![]
    } else {
        seq![FormViolation::PasswordLength]
    }) + (if some_lowercase(password) {
        seq![]
    } else {
        seq![FormViolation::PasswordRule(ValidationFailure::NoLowercase)]
    }) + (if some_uppercase(password) {
        seq![]
    } else {
        seq![FormViolation::PasswordRule(ValidationFailure::NoUppercase)]
    }) + (if some_numeric(password) {
        seq![]
    } else {
        seq![FormViolation::PasswordRule(ValidationFailure::NoNumeric)]
    }) + (if some_special(password) {
        seq![]
    } else {
        seq![FormViolation::PasswordRule(ValidationFailure::NoSpecial)]
    }) + (if password == confirm {
        seq![]
    } else {
        seq![FormViolation::PasswordMismatch]
    })
}

/// Checks the account-creation form and lists every broken rule, in the
/// order the rules are declared; an empty list means the form is valid.
pub fn check_account_form(user_name: &str, password: &str, confirm_password: &str) -> (r: Vec<
    FormViolation,
>)
    ensures
        r@ == account_form_violations(user_name@, password@, confirm_password@),
{
    let mut out: Vec<FormViolation> = Vec::new();
    let ghost g0 = out@;
    if !is_valid_user_name(user_name) {
        out.push(FormViolation::UserName);
    }
    if password.unicode_len() < 8 {
        out.push(FormViolation::PasswordLength);
    }
    if has_lowercase(password).is_err() {
        out.push(FormViolation::PasswordRule(ValidationFailure::NoLowercase));
    }
    if has_uppercase(password).is_err() {
        out.push(FormViolation::PasswordRule(ValidationFailure::NoUppercase));
    }
    if has_numeric(password).is_err() {
        out.push(FormViolation::PasswordRule(ValidationFailure::NoNumeric));
    }
    if has_special(password).is_err() {
        out.push(FormViolation::PasswordRule(ValidationFailure::NoSpecial));
    }
    let same = password.to_owned() == confirm_password.to_owned();
    if !same {
        out.push(FormViolation::PasswordMismatch);
    }
    assert(out@ =~= account_form_violations(user_name@, password@, confirm_password@));
    out
}

/// The messages of the password rules that `password` breaks, in order.
pub open spec fn password_messages(password: Seq<char>) -> Seq<Seq<char>> {
    (if password.len() >= 8 {
        seq![]
    } else {
        seq!["Field must be at least 8 characters long"@]
    }) + (if some_lowercase(password) {
        seq![]
    } else {
        seq!["Field must contain at least one lowercase character"@]
    }) + (if some_uppercase(password) {
        seq![]
    } else {
        seq!["Field must contain at least one uppercase character"@]
    }) + (if some_numeric(password) {
        seq![]
    } else {
        seq!["Field must contain at least one numeric character"@]
    }) + (if some_special(password) {
        seq![]
    } else {
        seq!["Field must contain at least one special character (!@#$%^&*_-+=)"@]
    })
}

/// One line per field with broken rules, in declaration order:
/// `field: message, message, ...`.
pub open spec fn account_form_lines(user_name: Seq<char>, password: Seq<char>, confirm: Seq<char>) -> Seq<
    Seq<char>,
> {
    (if valid_user_name(user_name) {
        seq![]
    } else {
        seq!["user_name: Invalid username"@]
    }) + (if password_messages(password).len() == 0 {
        seq![]
    } else {
        seq!["password: "@ + join(password_messages(password), ", "@)]
    }) + (if password == confirm {
        seq![]
    } else {
        seq!["confirm_password: Mismatched passwords"@]
    })
}

/// The answer to an account-creation form: nothing when every rule holds,
/// otherwise an invalid-argument refusal listing the broken rules by field,
/// one line per field.
pub open spec fn account_form_outcome(user_name: Seq<char>, password: Seq<char>, confirm: Seq<char>) -> Option<
    (Code, Seq<char>),
> {
    let lines = account_form_lines(user_name, password, confirm);
    if lines.len() == 0 {
        None
    } else {
        Some((Code::InvalidArgument, join(lines, "\n"@)))
    }
}

fn owned(s: &str) -> (r: String)
    ensures
        r@ == s@,
{
    s.to_owned()
}

/// The messages of the password rules that `password` breaks, in order.
fn password_rule_messages(password: &str) -> (r: Vec<String>)
    ensures
        views(r@) == password_messages(password@),
{
    let mut messages: Vec<String> = Vec::new();
    if password.unicode_len() < 8 {
        messages.push(owned("Field must be at least 8 characters long"));
    }
    if has_lowercase(password).is_err() {
        messages.push(owned("Field must contain at least one lowercase character"));
    }
    if has_uppercase(password).is_err() {
        messages.push(owned("Field must contain at least one uppercase character"));
    }
    if has_numeric(password).is_err() {
        messages.push(owned("Field must contain at least one numeric character"));
    }
    if has_special(password).is_err() {
        messages.push(owned("Field must contain at least one special character (!@#$%^&*_-+=)"));
    }
    assert(views(messages@) =~= password_messages(password@));
    messages
}

/// Checks the account-creation form and answers it as the account service
/// does: a refusal naming every broken rule, grouped by field.
pub fn account_form_status(user_name: &str, password: &str, confirm_password: &str) -> (r: Result<
    (),
    Status,
>)
    ensures
        account_form_outcome(user_name@, password@, confirm_password@) is None ==> r is Ok,
        account_form_outcome(user_name@, password@, confirm_password@) matches Some((c, m)) ==> (
        r matches Err(s) && status_is(s, c, m)),
{
    let messages = password_rule_messages(password);
    let name_ok = is_valid_user_name(user_name);
    let same = password.to_owned() == confirm_password.to_owned();
    let mut lines: Vec<String> = Vec::new();
    if !name_ok {
        lines.push(owned("user_name: Invalid username"));
    }
    if messages.len() > 0 {
        let mut line = owned("password: ");
        let joined = join_strings(&messages, ", ");
        line.append(joined.as_str());
        lines.push(line);
    }
    if !same {
        lines.push(owned("confirm_password: Mismatched passwords"));
    }
    assert(views(lines@) =~= account_form_lines(user_name@, password@, confirm_password@));
    if lines.len() == 0 {
        return Ok(());
    }
    let message = join_strings(&lines, "\n");
    Err(Status::with_message(Code::InvalidArgument, message))
}

/// The password rules of the account form: at least eight characters, and
/// at least one lowercase, one uppercase, one numeric and one special
/// (`!@#$%^&*_-+=`) character.
pub open spec fn password_meets_rules(p: Seq<char>) -> bool {
    &&& p.len() >= 8
    &&& exists|i: int| 0 <= i < p.len() && unicode_lowercase(#[trigger] p[i])
    &&& exists|i: int| 0 <= i < p.len() && unicode_uppercase(#[trigger] p[i])
    &&& exists|i: int| 0 <= i < p.len() && unicode_numeric(#[trigger] p[i])
    &&& exists|i: int|
        0 <= i < p.len() && (#[trigger] p[i] == '!' || p[i] == '@' || p[i] == '#' || p[i] == '$'
            || p[i] == '%' || p[i] == '^' || p[i] == '&' || p[i] == '*' || p[i] == '_' || p[i]
            == '-' || p[i] == '+' || p[i] == '=')
}

/// The password rules, one by one.
proof fn password_rules_by_parts(p: Seq<char>)
    ensures
        password_meets_rules(p) <==> (p.len() >= 8 && some_lowercase(p) && some_uppercase(p)
            && some_numeric(p) && some_special(p)),
{
}

/// The broken rules of the form, by part.
#[verifier::spinoff_prover]
#[verifier::rlimit(60)]
proof fn account_form_violations_by_parts(user_name: Seq<char>, password: Seq<char>, confirm: Seq<char>)
    ensures
        account_form_violations(user_name, password, confirm).len() == 0 <==> (valid_user_name(
            user_name,
        ) && password.len() >= 8 && some_lowercase(password) && some_uppercase(password)
            && some_numeric(password) && some_special(password) && password == confirm),
        password.len() < 8 ==> account_form_violations(user_name, password, confirm).contains(
            FormViolation::PasswordLength,
        ),
        !some_lowercase(password) ==> account_form_violations(user_name, password, confirm).contains(
            FormViolation::PasswordRule(ValidationFailure::NoLowercase),
        ),
        !some_uppercase(password) ==> account_form_violations(user_name, password, confirm).contains(
            FormViolation::PasswordRule(ValidationFailure::NoUppercase),
        ),
        !some_numeric(password) ==> account_form_violations(user_name, password, confirm).contains(
            FormViolation::PasswordRule(ValidationFailure::NoNumeric),
        ),
        !some_special(password) ==> account_form_violations(user_name, password, confirm).contains(
            FormViolation::PasswordRule(ValidationFailure::NoSpecial),
        ),
        password != confirm ==> account_form_violations(user_name, password, confirm).contains(
            FormViolation::PasswordMismatch,
        ),
{
    let v = account_form_violations(user_name, password, confirm);
    let a: Seq<FormViolation> = if valid_user_name(user_name) {
        seq![]
    } else {
        seq![FormViolation::UserName]
    };
    let b: Seq<FormViolation> = if password.len() >= 8 {
        seq![]
    } else {
        seq![FormViolation::PasswordLength]
    };
    let l: Seq<FormViolation> = if some_lowercase(password) {
        seq![]
    } else {
        seq![FormViolation::PasswordRule(ValidationFailure::NoLowercase)]
    };
    let u: Seq<FormViolation> = if some_uppercase(password) {
        seq![]
    } else {
        seq![FormViolation::PasswordRule(ValidationFailure::NoUppercase)]
    };
    let n: Seq<FormViolation> = if some_numeric(password) {
        seq![]
    } else {
        seq![FormViolation::PasswordRule(ValidationFailure::NoNumeric)]
    };
    let sp: Seq<FormViolation> = if some_special(password) {
        seq![]
    } else {
        seq![FormViolation::PasswordRule(ValidationFailure::NoSpecial)]
    };
    let m: Seq<FormViolation> = if password == confirm {
        seq![]
    } else {
        seq![FormViolation::PasswordMismatch]
    };
    assert(v == a + b + l + u + n + sp + m);
    let k1 = a.len() as int;
    let k2 = k1 + b.len();
    let k3 = k2 + l.len();
    let k4 = k3 + u.len();
    let k5 = k4 + n.len();
    let k6 = k5 + sp.len();
    if password.len() < 8 {
        assert(v[k1] == FormViolation::PasswordLength);
    }
    if !some_lowercase(password) {
        assert(v[k2] == FormViolation::PasswordRule(ValidationFailure::NoLowercase));
    }
    if !some_uppercase(password) {
        assert(v[k3] == FormViolation::PasswordRule(ValidationFailure::NoUppercase));
    }
    if !some_numeric(password) {
        assert(v[k4] == FormViolation::PasswordRule(ValidationFailure::NoNumeric));
    }
    if !some_special(password) {
        assert(v[k5] == FormViolation::PasswordRule(ValidationFailure::NoSpecial));
    }
    if password != confirm {
        assert(v[k6] == FormViolation::PasswordMismatch);
    }
}

/// The answer to the form, by part.
proof fn account_form_outcome_by_parts(user_name: Seq<char>, password: Seq<char>, confirm: Seq<char>)
    ensures
        account_form_outcome(user_name, password, confirm) is None <==> (valid_user_name(user_name)
            && password.len() >= 8 && some_lowercase(password) && some_uppercase(password)
            && some_numeric(password) && some_special(password) && password == confirm),
{
    let pm = password_messages(password);
    assert(pm.len() == 0 <==> (password.len() >= 8 && some_lowercase(password) && some_uppercase(
        password,
    ) && some_numeric(password) && some_special(password)));
}

/// The account form is accepted exactly when the user name is valid, the
/// password meets every password rule and the confirmation repeats it; the
/// list of broken rules is empty exactly then, and names each broken
/// password rule.
pub proof fn account_form_rules(user_name: Seq<char>, password: Seq<char>, confirm: Seq<char>)
    ensures
        account_form_outcome(user_name, password, confirm) is None <==> (valid_user_name(user_name)
            && password_meets_rules(password) && password == confirm),
        account_form_violations(user_name, password, confirm).len() == 0 <==> (valid_user_name(
            user_name,
        ) && password_meets_rules(password) && password == confirm),
        password.len() < 8 ==> account_form_violations(user_name, password, confirm).contains(
            FormViolation::PasswordLength,
        ),
        !(exists|i: int| 0 <= i < password.len() && unicode_lowercase(#[trigger] password[i]))
            ==> account_form_violations(user_name, password, confirm).contains(
            FormViolation::PasswordRule(ValidationFailure::NoLowercase),
        ),
        !(exists|i: int| 0 <= i < password.len() && unicode_uppercase(#[trigger] password[i]))
            ==> account_form_violations(user_name, password, confirm).contains(
            FormViolation::PasswordRule(ValidationFailure::NoUppercase),
        ),
        !(exists|i: int| 0 <= i < password.len() && unicode_numeric(#[trigger] password[i]))
            ==> account_form_violations(user_name, password, confirm).contains(
            FormViolation::PasswordRule(ValidationFailure::NoNumeric),
        ),
        password != confirm ==> account_form_violations(user_name, password, confirm).contains(
            FormViolation::PasswordMismatch,
        ),
{
    password_rules_by_parts(password);
    account_form_violations_by_parts(user_name, password, confirm);
    account_form_outcome_by_parts(user_name, password, confirm);
}

/// The form is refused exactly when some rule of `check_account_form` is
/// broken.
pub proof fn account_form_outcome_matches_violations(
    user_name: Seq<char>,
    password: Seq<char>,
    confirm: Seq<char>,
)
    ensures
        account_form_outcome(user_name, password, confirm) is None <==> account_form_violations(
            user_name,
            password,
            confirm,
        ).len() == 0,
{
}

} // verus!
