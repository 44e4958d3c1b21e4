use doc_svc::common::types::jwt_types::{self, Claims};
use doc_svc::common::types::sql_types::{self, DocumentType, Scope};
use doc_svc::common::types::{self as token_types, TokenClaims};
use doc_svc::text::decimal_string;

#[test]
fn document_type_numbers_round_trip() {
    let all = [
        DocumentType::OriginalArticle,
        DocumentType::Review,
        DocumentType::CaseReport,
        DocumentType::Letter,
        DocumentType::Editorial,
        DocumentType::ConferencePaper,
        DocumentType::Thesis,
    ];
    for (i, t) in all.iter().enumerate() {
        assert_eq!((*t).into(), i as i32);
        assert_eq!(DocumentType::try_from(i as i32), Ok(*t));
        assert_eq!(DocumentType::try_from((*t).into()), Ok(*t));
    }
    assert_eq!(DocumentType::try_from(7), Err("Bad enum conversion"));
    assert_eq!(DocumentType::try_from(-1), Err("Bad enum conversion"));
}

#[test]
fn role_and_scope_numbers() {
    assert_eq!(sql_types::Role::try_from(0), Ok(sql_types::Role::User));
    assert_eq!(sql_types::Role::try_from(1), Ok(sql_types::Role::Admin));
    assert_eq!(sql_types::Role::try_from(2), Err("Bad enum conversion"));
    assert_eq!(jwt_types::Role::try_from(1), Ok(jwt_types::Role::Admin));
    assert_eq!(token_types::Role::try_from(0), Ok(token_types::Role::User));
    assert_eq!(token_types::Role::try_from(5), Err("Bad enum conversion"));
    assert_eq!(Scope::try_from(0), Ok(Scope::Local));
    assert_eq!(Scope::try_from(1), Ok(Scope::Global));
    assert_eq!(Scope::try_from(3), Err("Bad enum conversion"));
    assert_eq!(sql_types::Role::Admin.into(), jwt_types::Role::Admin);
    assert_eq!(sql_types::Role::User.into(), jwt_types::Role::User);
}

#[test]
fn decimal_text() {
    assert_eq!(decimal_string(0), "0");
    assert_eq!(decimal_string(1725029869), "1725029869");
    assert_eq!(decimal_string(-42), "-42");
    assert_eq!(decimal_string(i64::MAX), i64::MAX.to_string());
    assert_eq!(decimal_string(i64::MIN), i64::MIN.to_string());
}

#[test]
fn claims_json_text() {
    let c = Claims { sub: "juanito".to_string(), role: jwt_types::Role::Admin, exp: 100, iat: -5 };
    assert_eq!(c.to_json(), r#"{"sub":"juanito","role":"Admin","exp":100,"iat":-5}"#);
    let t = TokenClaims { sub: "Juanito".to_string(), user_role: token_types::Role::User, exp: i64::MAX };
    assert_eq!(t.to_json(), format!(r#"{{"sub":"Juanito","user_role":"User","exp":{}}}"#, i64::MAX));
}

#[test]
fn claims_json_escapes_like_serde_json() {
    let subjects = ["plain", "qu\"ote", "back\\slash", "new\nline\ttab\r", "\u{1}\u{1f}\u{8}\u{c}", "ñ€😀", "\u{7f}"];
    for s in subjects {
        let c = Claims { sub: s.to_string(), role: jwt_types::Role::User, exp: 1, iat: 2 };
        let expected = format!(
            "{{\"sub\":{},\"role\":\"User\",\"exp\":1,\"iat\":2}}",
            serde_json::to_string(s).unwrap()
        );
        assert_eq!(c.to_json(), expected);
    }
}
