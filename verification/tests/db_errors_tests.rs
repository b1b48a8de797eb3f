use backend_utils::db_errors::{
    conflict_from_write_error, extract_duplicate_field, handle_duplicate_key_error,
};
use backend_utils::errors::ServiceError;

const DUP_EMAIL: &str = "E11000 duplicate key error collection: shop.users index: email_1 \
                         dup key: { email: \"a@b.com\" }";

#[test]
fn extracts_the_duplicated_field() {
    assert_eq!(extract_duplicate_field(DUP_EMAIL), Some("email".to_string()));
}

#[test]
fn extracts_nothing_without_the_marker() {
    assert_eq!(extract_duplicate_field(""), None);
    assert_eq!(extract_duplicate_field("E11000 duplicate key error"), None);
    assert_eq!(extract_duplicate_field("dup key: {email: 1}"), None);
}

#[test]
fn extracts_nothing_when_a_colon_follows_at_once() {
    assert_eq!(extract_duplicate_field("dup key: { : \"x\" }"), None);
}

#[test]
fn extracts_nothing_without_a_closing_colon() {
    assert_eq!(extract_duplicate_field("dup key: { email }"), None);
}

#[test]
fn extracts_from_the_leftmost_match() {
    let msg = "dup key: { first: 1 } and dup key: { second: 2 }";
    assert_eq!(extract_duplicate_field(msg), Some("first".to_string()));
}

#[test]
fn agrees_with_the_regex() {
    let re = regex::Regex::new(r#"dup key: \{ ([^:]+):"#).unwrap();
    for msg in [
        DUP_EMAIL,
        "",
        "dup key: { a: 1 }",
        "dup key: { : 1 }",
        "dup key: { ab cd: 1 }",
        "dup key: { no colon }",
        "prefix dup key: { x } then dup key: { y: 2 }",
        "dup key: { émail: \"x\" }",
        "dup key: {email: 1}",
    ] {
        let expected = re
            .captures(msg)
            .and_then(|caps| caps.get(1))
            .map(|m| m.as_str().to_string());
        assert_eq!(extract_duplicate_field(msg), expected, "disagreement on {:?}", msg);
    }
}

#[test]
fn duplicate_key_code_becomes_a_conflict() {
    let got = conflict_from_write_error(11000, DUP_EMAIL);
    assert_eq!(
        got,
        Some(ServiceError::Conflict("email sudah digunakan".to_string()))
    );
}

#[test]
fn other_codes_become_nothing() {
    assert_eq!(conflict_from_write_error(121, DUP_EMAIL), None);
    assert_eq!(conflict_from_write_error(11000, "no duplicate here"), None);
}

fn write_error_with(code: i32, message: &str) -> mongodb::error::Error {
    let mut doc = mongodb::bson::Document::new();
    doc.insert("code", code);
    doc.insert("errmsg", message);
    let write_error: mongodb::error::WriteError =
        mongodb::bson::from_document(doc).expect("a write error deserializes from a document");
    mongodb::error::Error::from(mongodb::error::ErrorKind::Write(
        mongodb::error::WriteFailure::WriteError(write_error),
    ))
}

#[test]
fn driver_duplicate_key_error_is_translated() {
    let err = write_error_with(11000, DUP_EMAIL);
    assert_eq!(
        handle_duplicate_key_error(&err),
        Some(ServiceError::Conflict("email sudah digunakan".to_string()))
    );
}

#[test]
fn driver_write_error_with_other_code_is_passed_over() {
    let err = write_error_with(121, DUP_EMAIL);
    assert_eq!(handle_duplicate_key_error(&err), None);
}

#[test]
fn driver_error_of_another_kind_is_passed_over() {
    let err = mongodb::error::Error::custom("a timeout, say");
    assert_eq!(handle_duplicate_key_error(&err), None);
}
