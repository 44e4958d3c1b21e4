use vstd::prelude::*;

verus! {

broadcast use vstd::string::group_string_axioms;

/// What `char::is_lowercase` returns for `c` (the Unicode `Lowercase` property).
pub uninterp spec fn unicode_lowercase(c: char) -> bool;

/// What `char::is_uppercase` returns for `c` (the Unicode `Uppercase` property).
pub uninterp spec fn unicode_uppercase(c: char) -> bool;

/// What `char::is_numeric` returns for `c` (Unicode general categories `Nd`, `Nl`, `No`).
pub uninterp spec fn unicode_numeric(c: char) -> bool;

/// What `char::is_alphanumeric` returns for `c` (`Alphabetic` or numeric).
pub uninterp spec fn unicode_alphanumeric(c: char) -> bool;

/// `char::is_lowercase`; the contract names its result.
#[verifier::external_body]
fn char_is_lowercase(c: char) -> (r: bool)
    ensures
        r == unicode_lowercase(c),
{
    c.is_lowercase()
}

/// `char::is_uppercase`; the contract names its result.
#[verifier::external_body]
fn char_is_uppercase(c: char) -> (r: bool)
    ensures
        r == unicode_uppercase(c),
{
    c.is_uppercase()
}

/// `char::is_numeric`; the contract names its result.
#[verifier::external_body]
fn char_is_numeric(c: char) -> (r: bool)
    ensures
        r == unicode_numeric(c),
{
    c.is_numeric()
}

/// `char::is_alphanumeric`; the contract names its result.
#[verifier::external_body]
fn char_is_alphanumeric(c: char) -> (r: bool)
    ensures
        r == unicode_alphanumeric(c),
{
    c.is_alphanumeric()
}

/// The special characters a password may (and must) use: `!@#$%^&*_-+=`.
pub open spec fn special_char(c: char) -> bool {
    c == '!' || c == '@' || c == '#' || c == '$' || c == '%' || c == '^' || c == '&' || c == '*'
        || c == '_' || c == '-' || c == '+' || c == '='
}

/// A character allowed in a password: alphanumeric or special.
pub open spec fn password_char(c: char) -> bool {
    unicode_alphanumeric(c) || special_char(c)
}

pub open spec fn some_lowercase(s: Seq<char>) -> bool {
    exists|i: int| 0 <= i < s.len() && unicode_lowercase(#[trigger] s[i])
}

pub open spec fn some_uppercase(s: Seq<char>) -> bool {
    exists|i: int| 0 <= i < s.len() && unicode_uppercase(#[trigger] s[i])
}

pub open spec fn some_numeric(s: Seq<char>) -> bool {
    exists|i: int| 0 <= i < s.len() && unicode_numeric(#[trigger] s[i])
}

pub open spec fn some_special(s: Seq<char>) -> bool {
    exists|i: int| 0 <= i < s.len() && special_char(#[trigger] s[i])
}

pub open spec fn only_password_chars(s: Seq<char>) -> bool {
    forall|i: int| 0 <= i < s.len() ==> password_char(#[trigger] s[i])
}

/// Whether `c` is one of the special characters `!@#$%^&*_-+=`.
pub fn is_special(c: char) -> (r: bool)
    ensures
        r == special_char(c),
{
    c == '!' || c == '@' || c == '#' || c == '$' || c == '%' || c == '^' || c == '&' || c == '*'
        || c == '_' || c == '-' || c == '+' || c == '='
}

/// Why a field failed one of the password rules.
#[derive(Clone, Copy, Debug, PartialEq, Eq, Structural)]
pub enum ValidationFailure {
    NoLowercase,
    NoUppercase,
    NoNumeric,
    NoSpecial,
    InvalidChars,
}

impl ValidationFailure {
    /// The short code of the failure.
    pub fn code(&self) -> (r: &'static str)
        ensures
            *self == ValidationFailure::NoLowercase ==> r@ == "no lowercase"@,
            *self == ValidationFailure::NoUppercase ==> r@ == "no uppercase"@,
            *self == ValidationFailure::NoNumeric ==> r@ == "no numeric"@,
            *self == ValidationFailure::NoSpecial ==> r@ == "no special"@,
            *self == ValidationFailure::InvalidChars ==> r@ == "invalid chars"@,
    {
        match self {
            ValidationFailure::NoLowercase => "no lowercase",
            ValidationFailure::NoUppercase => "no uppercase",
            ValidationFailure::NoNumeric => "no numeric",
            ValidationFailure::NoSpecial => "no special",
            ValidationFailure::InvalidChars => "invalid chars",
        }
    }

    /// The message shown to the user for the failure.
    pub fn message(&self) -> (r: &'static str)
        ensures
            *self == ValidationFailure::NoLowercase ==> r@
                == "Field must contain at least one lowercase character"@,
            *self == ValidationFailure::NoUppercase ==> r@
                == "Field must contain at least one uppercase character"@,
            *self == ValidationFailure::NoNumeric ==> r@
                == "Field must contain at least one numeric character"@,
            *self == ValidationFailure::NoSpecial ==> r@
                == "Field must contain at least one special character (!@#$%^&*_-+=)"@,
            *self == ValidationFailure::InvalidChars ==> r@
                == "Field must contain alphanumeric characters and any of following: !@#$%^&*_-+="@,
    {
        match self {
            ValidationFailure::NoLowercase => "Field must contain at least one lowercase character",
            ValidationFailure::NoUppercase => "Field must contain at least one uppercase character",
            ValidationFailure::NoNumeric => "Field must contain at least one numeric character",
            ValidationFailure::NoSpecial =>
                "Field must contain at least one special character (!@#$%^&*_-+=)",
            ValidationFailure::InvalidChars =>
                "Field must contain alphanumeric characters and any of following: !@#$%^&*_-+=",
        }
    }
}

/// Accepts a string holding at least one lowercase character.
pub fn has_lowercase(string: &str) -> (r: Result<(), ValidationFailure>)
    ensures
        r is Ok <==> some_lowercase(string@),
        r is Err ==> r == Err::<(), ValidationFailure>(ValidationFailure::NoLowercase),
{
    for c in it: string.chars()
        invariant
            it.seq() == string@,
            forall|j: int| 0 <= j < it.index() ==> !unicode_lowercase(#[trigger] string@[j]),
    {
        if char_is_lowercase(c) {
            return Ok(());
        }
    }
    Err(ValidationFailure::NoLowercase)
}

/// Accepts a string holding at least one uppercase character.
pub fn has_uppercase(string: &str) -> (r: Result<(), ValidationFailure>)
    ensures
        r is Ok <==> some_uppercase(string@),
        r is Err ==> r == Err::<(), ValidationFailure>(ValidationFailure::NoUppercase),
{
    for c in it: string.chars()
        invariant
            it.seq() == string@,
            forall|j: int| 0 <= j < it.index() ==> !unicode_uppercase(#[trigger] string@[j]),
    {
        if char_is_uppercase(c) {
            return Ok(());
        }
    }
    Err(ValidationFailure::NoUppercase)
}

/// Accepts a string holding at least one numeric character.
pub fn has_numeric(string: &str) -> (r: Result<(), ValidationFailure>)
    ensures
        r is Ok <==> some_numeric(string@),
        r is Err ==> r == Err::<(), ValidationFailure>(ValidationFailure::NoNumeric),
{
    for c in it: string.chars()
        invariant
            it.seq() == string@,
            forall|j: int| 0 <= j < it.index() ==> !unicode_numeric(#[trigger] string@[j]),
    {
        if char_is_numeric(c) {
            return Ok(());
        }
    }
    Err(ValidationFailure::NoNumeric)
}

/// Accepts a string holding at least one special character (`!@#$%^&*_-+=`).
pub fn has_special(string: &str) -> (r: Result<(), ValidationFailure>)
    ensures
        r is Ok <==> some_special(string@),
        r is Err ==> r == Err::<(), ValidationFailure>(ValidationFailure::NoSpecial),
{
    for c in it: string.chars()
        invariant
            it.seq() == string@,
            forall|j: int| 0 <= j < it.index() ==> !special_char(#[trigger] string@[j]),
    {
        if is_special(c) {
            return Ok(());
        }
    }
    Err(ValidationFailure::NoSpecial)
}

/// Accepts a string made only of alphanumeric and special characters.
pub fn has_valid_chars(string: &str) -> (r: Result<(), ValidationFailure>)
    ensures
        r is Ok <==> only_password_chars(string@),
        r is Err ==> r == Err::<(), ValidationFailure>(ValidationFailure::InvalidChars),
{
    for c in it: string.chars()
        invariant
            it.seq() == string@,
            forall|j: int| 0 <= j < it.index() ==> password_char(#[trigger] string@[j]),
    {
        if !char_is_alphanumeric(c) && !is_special(c) {
            return Err(ValidationFailure::InvalidChars);
        }
    }
    Ok(())
}

/// A character the user-name pattern `[a-zA-Z0-9._]` admits.
pub open spec fn user_name_char(c: char) -> bool {
    ('a' <= c && c <= 'z') || ('A' <= c && c <= 'Z') || ('0' <= c && c <= '9') || c == '.' || c
        == '_'
}

/// The user-name rule `^[a-zA-Z0-9._]{3,16}$`: 3 to 16 characters, each a
/// letter of the English alphabet, a digit, `.` or `_`.
pub open spec fn valid_user_name(s: Seq<char>) -> bool {
    &&& 3 <= s.len() <= 16
    &&& forall|i: int| 0 <= i < s.len() ==> user_name_char(#[trigger] s[i])
}

/// Whether `name` is an acceptable user name (`^[a-zA-Z0-9._]{3,16}$`).
pub fn is_valid_user_name(name: &str) -> (r: bool)
    ensures
        r == valid_user_name(name@),
{
    let mut count: usize = 0;
    for c in it: name.chars()
        invariant
            it.seq() == name@,
            count == it.index(),
            count <= 16,
            forall|j: int| 0 <= j < it.index() ==> user_name_char(#[trigger] name@[j]),
    {
        let allowed = ('a' <= c && c <= 'z') || ('A' <= c && c <= 'Z') || ('0' <= c && c <= '9')
            || c == '.' || c == '_';
        if !allowed {
            return false;
        }
        if count == 16 {
            return false;
        }
        count = count + 1;
    }
    count >= 3
}

} // verus!
