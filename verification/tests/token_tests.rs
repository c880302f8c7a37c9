//! The token reply's decoding: the four fields, the bearer/other split of
//! the token type, and the rule that `expires_in` must be a number that is
//! an unsigned 64-bit integer.

use ci_broker::errors::ErrorKind;
use ci_broker::token::{expires_in_from_json, token_from_json, token_type_of, TokenType};

#[test]
fn will_successfully_deserialize_a_number_to_duration() {
    let string = "{ \"expires_in\": 123456 }";
    assert_eq!(expires_in_from_json(string), Ok(123456));
}

#[test]
fn will_return_an_error_if_it_tries_to_deserialize_a_string_to_duration() {
    let string = "{ \"expires_in\": \"123456\" }";
    let result = expires_in_from_json(string);
    assert!(result.is_err());
}

#[test]
fn will_return_an_error_if_the_number_is_not_a_u64() {
    let string = "{ \"expires_in\": 123456.789 }";
    let result = expires_in_from_json(string);
    assert!(result.is_err());
}

#[test]
fn will_successfully_deserialize_to_token_struct() {
    let string = r#"
        {
            "access_token": "token",
            "expires_in": 123456,
            "id_token": "token-id",
            "token_type": "bearer"
        }
    "#;

    let token = token_from_json(string).unwrap();

    assert_eq!(token.access_token, String::from("token"));
    assert_eq!(token.expires_in, 123456);
    assert_eq!(token.id_token, String::from("token-id"));
    assert_eq!(token.token_type, TokenType::Bearer);
}

#[test]
fn will_successfully_deserialize_to_token_struct_selecting_other_for_token_type() {
    let string = r#"
        {
            "access_token": "token",
            "expires_in": 123456,
            "id_token": "token-id",
            "token_type": "something-else"
        }
    "#;

    let token = token_from_json(string).unwrap();

    assert_eq!(token.token_type, TokenType::Other(String::from("something-else")));
}

#[test]
fn will_return_an_error_if_expires_in_is_a_string() {
    let string = r#"
        {
            "access_token": "token",
            "expires_in": "123456",
            "id_token": "token-id",
            "token_type": "bearer"
        }
    "#;

    let result = token_from_json(string);

    assert!(result.is_err());
}

#[test]
fn will_return_an_error_if_the_expires_in_is_not_a_u64() {
    let string = r#"
        {
            "access_token": "token",
            "expires_in": 123456.789,
            "id_token": "token-id",
            "token_type": "bearer"
        }
    "#;

    let result = token_from_json(string);

    assert!(result.is_err());
}

#[test]
fn token_type_reads_bearer_and_keeps_anything_else() {
    assert_eq!(token_type_of("bearer"), TokenType::Bearer);
    assert_eq!(token_type_of("Bearer"), TokenType::Other(String::from("Bearer")));
    assert_eq!(token_type_of(""), TokenType::Other(String::from("")));
}

#[test]
fn token_decode_requires_every_field() {
    let missing_id = r#"{ "access_token": "t", "expires_in": 1, "token_type": "bearer" }"#;
    assert_eq!(token_from_json(missing_id), Err(ErrorKind::Decode));
    let not_json = "not json at all";
    assert_eq!(token_from_json(not_json), Err(ErrorKind::Decode));
    let not_an_object = "[1, 2, 3]";
    assert_eq!(token_from_json(not_an_object), Err(ErrorKind::Decode));
}
