use doc_svc::common::valid::{
    has_lowercase, has_numeric, has_special, has_uppercase, has_valid_chars, is_special,
    is_valid_user_name, ValidationFailure,
};
use doc_svc::validation::{
    account_form_status, check_account_form, password_check, FormViolation, PasswordCheckFailure,
};
use doc_svc::status::Code;

#[test]
fn lowercase_rule() {
    assert_eq!(has_lowercase("abc"), Ok(()));
    assert_eq!(has_lowercase("ABC1!"), Err(ValidationFailure::NoLowercase));
    assert_eq!(has_lowercase(""), Err(ValidationFailure::NoLowercase));
    // Non-ASCII lowercase letters count.
    assert_eq!(has_lowercase("ÄÖß"), Ok(()));
}

#[test]
fn uppercase_rule() {
    assert_eq!(has_uppercase("abC"), Ok(()));
    assert_eq!(has_uppercase("abc1!"), Err(ValidationFailure::NoUppercase));
    assert_eq!(has_uppercase("éÉ"), Ok(()));
}

#[test]
fn numeric_rule() {
    assert_eq!(has_numeric("abc9"), Ok(()));
    assert_eq!(has_numeric("abc"), Err(ValidationFailure::NoNumeric));
    // Other Unicode numbers count too.
    assert_eq!(has_numeric("x½"), Ok(()));
}

#[test]
fn special_rule() {
    for c in "!@#$%^&*_-+=".chars() {
        assert!(is_special(c));
        assert_eq!(has_special(&c.to_string()), Ok(()));
    }
    assert!(!is_special('?'));
    assert_eq!(has_special("abc?"), Err(ValidationFailure::NoSpecial));
}

#[test]
fn valid_chars_rule() {
    assert_eq!(has_valid_chars("Abc123!@#"), Ok(()));
    assert_eq!(has_valid_chars(""), Ok(()));
    assert_eq!(has_valid_chars("abc def"), Err(ValidationFailure::InvalidChars));
    assert_eq!(has_valid_chars("abc?"), Err(ValidationFailure::InvalidChars));
    assert_eq!(has_valid_chars("ñandú1"), Ok(()));
}

#[test]
fn failure_codes_and_messages() {
    assert_eq!(ValidationFailure::NoLowercase.code(), "no lowercase");
    assert_eq!(
        ValidationFailure::NoSpecial.message(),
        "Field must contain at least one special character (!@#$%^&*_-+=)"
    );
    assert_eq!(ValidationFailure::InvalidChars.code(), "invalid chars");
}

#[test]
fn user_name_rule() {
    assert!(!is_valid_user_name("ab"));
    assert!(is_valid_user_name("abc"));
    assert!(is_valid_user_name("juan.perez_99"));
    assert!(is_valid_user_name("abcdefghijklmnop"));
    assert!(!is_valid_user_name("abcdefghijklmnopq"));
    assert!(!is_valid_user_name("juan-perez"));
    assert!(!is_valid_user_name("ñandu"));
    assert!(!is_valid_user_name(""));
}

#[test]
fn password_check_cases() {
    assert_eq!(password_check("Abcdef1!"), Ok(()));
    assert_eq!(password_check("abcdef1!"), Err(PasswordCheckFailure::Complexity));
    assert_eq!(password_check("Abcdef1 !"), Err(PasswordCheckFailure::InvalidChars));
    assert_eq!(password_check(""), Err(PasswordCheckFailure::Complexity));
    assert_eq!(PasswordCheckFailure::InvalidChars.code(), "invalid_chars");
    assert_eq!(PasswordCheckFailure::InvalidChars.message(), "Password has invalid characters");
}

#[test]
fn password_check_agrees_with_single_rules() {
    for p in ["Abcdef1!", "abc", "ABC1!", "Abc 1!", "Zz9=", "Ñu1+", "x"] {
        let all = has_lowercase(p).is_ok()
            && has_uppercase(p).is_ok()
            && has_numeric(p).is_ok()
            && has_special(p).is_ok()
            && has_valid_chars(p).is_ok();
        assert_eq!(password_check(p).is_ok(), all, "{p}");
    }
}

#[test]
fn account_form_lists_broken_rules_in_order() {
    assert!(check_account_form("juanito", "Secret1!", "Secret1!").is_empty());
    let v = check_account_form("ab", "abc", "abd");
    assert_eq!(
        v,
        vec![
            FormViolation::UserName,
            FormViolation::PasswordLength,
            FormViolation::PasswordRule(ValidationFailure::NoUppercase),
            FormViolation::PasswordRule(ValidationFailure::NoNumeric),
            FormViolation::PasswordRule(ValidationFailure::NoSpecial),
            FormViolation::PasswordMismatch,
        ]
    );
    assert_eq!(v[0].field(), "user_name");
    assert_eq!(v[0].code(), "regex");
    assert_eq!(v[1].code(), "length");
    assert_eq!(v[2].code(), "no uppercase");
    assert_eq!(v[5].message(), "Mismatched passwords");
}

#[test]
fn account_form_answer() {
    assert!(account_form_status("juanito", "Secret1!", "Secret1!").is_ok());
    let s = account_form_status("ab", "secret1!", "other").unwrap_err();
    assert_eq!(s.code, Code::InvalidArgument);
    assert_eq!(
        s.message,
        "user_name: Invalid username\npassword: Field must contain at least one uppercase character\nconfirm_password: Mismatched passwords"
    );
    let s = account_form_status("juanito", "Ab1!", "Ab1!").unwrap_err();
    assert_eq!(s.message, "password: Field must be at least 8 characters long");
    let s = account_form_status("juanito", "abcdefgh", "abcdefgh").unwrap_err();
    assert_eq!(
        s.message,
        "password: Field must contain at least one uppercase character, Field must contain at least one numeric character, Field must contain at least one special character (!@#$%^&*_-+=)"
    );
}
