//! Extraction of `email` and `name` from form-urlencoded bodies: the
//! decodings it performs and every way it can reject a body.

use zero2prod::routes::form::{parse_form_data, FormError};

fn parsed(body: &str) -> (String, String) {
    match parse_form_data(body.as_bytes()) {
        Ok(f) => (f.email, f.name),
        Err(e) => panic!("body {:?} was rejected: {:?}", body, e),
    }
}

fn rejected(body: &[u8]) -> FormError {
    match parse_form_data(body) {
        Ok(_) => panic!("body {:?} was accepted", body),
        Err(e) => e,
    }
}

#[test]
fn percent_escapes_and_pluses_are_decoded() {
    let (email, name) = parsed("name=le%20guin&email=ursula_le_guin%40gmail.com");
    assert_eq!(email, "ursula_le_guin@gmail.com");
    assert_eq!(name, "le guin");

    let (email, name) = parsed("email=a%2Bb%3Dc&name=le+guin");
    assert_eq!(email, "a+b=c");
    assert_eq!(name, "le guin");
}

#[test]
fn field_order_does_not_matter() {
    let (email, name) = parsed("email=e&name=n");
    assert_eq!(email, "e");
    assert_eq!(name, "n");

    let (email, name) = parsed("name=n&email=e");
    assert_eq!(email, "e");
    assert_eq!(name, "n");
}

#[test]
fn keys_are_decoded_like_values() {
    let (email, name) = parsed("em%61il=e&n%61me=n");
    assert_eq!(email, "e");
    assert_eq!(name, "n");
}

#[test]
fn later_equals_signs_belong_to_the_value() {
    let (email, name) = parsed("email=a=b&name=n");
    assert_eq!(email, "a=b");
    assert_eq!(name, "n");
}

#[test]
fn empty_segments_are_skipped() {
    let (email, name) = parsed("&email=e&&name=n&");
    assert_eq!(email, "e");
    assert_eq!(name, "n");
}

#[test]
fn empty_values_are_accepted() {
    let (email, name) = parsed("email=&name=");
    assert_eq!(email, "");
    assert_eq!(name, "");

    // a key without `=` carries an empty value as well
    let (email, name) = parsed("email&name=n");
    assert_eq!(email, "");
    assert_eq!(name, "n");
}

#[test]
fn multibyte_escapes_decode_to_utf8() {
    let (email, name) = parsed("email=e&name=l%C3%A9%20guin");
    assert_eq!(email, "e");
    assert_eq!(name, "l\u{e9} guin");
}

#[test]
fn missing_fields_are_rejected() {
    assert_eq!(FormError::MissingEmail, rejected(b""));
    assert_eq!(FormError::MissingEmail, rejected(b"name=le%20guin"));
    assert_eq!(FormError::MissingName, rejected(b"email=ursula_le_guin%40gmail.com"));
}

#[test]
fn unknown_fields_are_rejected() {
    assert_eq!(FormError::UnknownField, rejected(b"email=e&name=n&extra=x"));
    assert_eq!(FormError::UnknownField, rejected(b"Email=e&name=n"));
    assert_eq!(FormError::UnknownField, rejected(b"=v"));
}

#[test]
fn repeated_fields_are_rejected() {
    assert_eq!(FormError::DuplicateField, rejected(b"email=a&email=b&name=n"));
    assert_eq!(FormError::DuplicateField, rejected(b"email=a&name=n&name=m"));
}

#[test]
fn broken_escapes_are_rejected() {
    assert_eq!(FormError::InvalidEscape, rejected(b"email=%zz&name=n"));
    assert_eq!(FormError::InvalidEscape, rejected(b"email=a&name=n%"));
    assert_eq!(FormError::InvalidEscape, rejected(b"email=a&name=n%4"));
}

#[test]
fn values_that_are_not_utf8_are_rejected() {
    assert_eq!(FormError::InvalidUtf8, rejected(b"email=%ff&name=n"));
    assert_eq!(FormError::InvalidUtf8, rejected(b"email=e&name=%c3%28"));
}
