//! The CI engine's bearer credential, and its decoding from the token
//! endpoint's JSON reply. The reply must carry `access_token`, `id_token`
//! and `token_type` as strings and `expires_in` as a number that is an
//! unsigned 64-bit integer — any other number, or a missing or mistyped
//! field, is a decode failure.

use vstd::prelude::*;
use crate::errors::ErrorKind;
use crate::json::{json_parse, json_view, str_field, u64_field, parse_json, get_str_field,
    get_u64_field, Json};
use crate::strutil::str_eq;

verus! {

/// The kind of token the engine issued. The engine's OAuth2 flow issues
/// `bearer`; anything else is kept verbatim.
#[derive(Debug, PartialEq, Eq)]
pub enum TokenType {
    Bearer,
    Other(String),
}

impl Clone for TokenType {
    fn clone(&self) -> (r: Self)
        ensures
            r == *self,
    {
        match self {
            TokenType::Bearer => TokenType::Bearer,
            TokenType::Other(s) => TokenType::Other(s.clone()),
        }
    }
}

/// `t` is the reading of the raw `token_type` text `s`: `Bearer` exactly
/// for the text `bearer`, the verbatim text otherwise.
pub open spec fn token_type_matches(t: TokenType, s: Seq<char>) -> bool {
    if s == "bearer"@ {
        t is Bearer
    } else {
        t matches TokenType::Other(o) && o@ == s
    }
}

/// Read a raw `token_type` text.
pub fn token_type_of(s: &str) -> (t: TokenType)
    ensures
        token_type_matches(t, s@),
{
    if str_eq(s, "bearer") {
        TokenType::Bearer
    } else {
        TokenType::Other(s.to_owned())
    }
}

/// The engine's bearer credential. `expires_in` counts seconds.
#[derive(Debug, PartialEq, Eq)]
pub struct Token {
    pub access_token: String,
    pub expires_in: u64,
    pub id_token: String,
    pub token_type: TokenType,
}

impl Clone for Token {
    fn clone(&self) -> (r: Self)
        ensures
            r == *self,
    {
        Token {
            access_token: self.access_token.clone(),
            expires_in: self.expires_in,
            id_token: self.id_token.clone(),
            token_type: self.token_type.clone(),
        }
    }
}

/// The document `j` has all four token fields, with the right shapes.
pub open spec fn token_decodes(j: Json) -> bool {
    &&& str_field(j, "access_token"@) is Some
    &&& u64_field(j, "expires_in"@) is Some
    &&& str_field(j, "id_token"@) is Some
    &&& str_field(j, "token_type"@) is Some
}

/// `t` is the token that the document `j` describes.
pub open spec fn token_matches(t: Token, j: Json) -> bool {
    &&& Some(t.access_token@) == str_field(j, "access_token"@)
    &&& Some(t.expires_in) == u64_field(j, "expires_in"@)
    &&& Some(t.id_token@) == str_field(j, "id_token"@)
    &&& str_field(j, "token_type"@) matches Some(s) && token_type_matches(t.token_type, s)
}

/// The text parses as a complete token reply.
pub open spec fn body_token_decodes(body: Seq<char>) -> bool {
    json_parse(body) matches Some(j) && token_decodes(j)
}

/// Decode the `expires_in` field alone from a JSON object: the number of
/// seconds the token lives, which must be a number that is an unsigned
/// 64-bit integer — a string, a fraction or a negative number is refused.
pub fn expires_in_from_json(s: &str) -> (r: Result<u64, ErrorKind>)
    ensures
        match json_parse(s@) {
            Some(j) => match u64_field(j, "expires_in"@) {
                Some(n) => r == Ok::<u64, ErrorKind>(n),
                None => r == Err::<u64, ErrorKind>(ErrorKind::Decode),
            },
            None => r == Err::<u64, ErrorKind>(ErrorKind::Decode),
        },
{
    match parse_json(s) {
        Some(v) => match get_u64_field(&v, "expires_in") {
            Some(n) => Ok(n),
            None => Err(ErrorKind::Decode),
        },
        None => Err(ErrorKind::Decode),
    }
}

/// Decode a token from an already parsed document.
pub(crate) fn token_from_value(v: &serde_json::Value) -> (r: Result<Token, ErrorKind>)
    ensures
        token_decodes(json_view(*v)) ==> (r matches Ok(t) && token_matches(t, json_view(*v))),
        !token_decodes(json_view(*v)) ==> r == Err::<Token, ErrorKind>(ErrorKind::Decode),
{
    let access_token = match get_str_field(v, "access_token") {
        Some(s) => s,
        None => {
            return Err(ErrorKind::Decode);
        },
    };
    let expires_in = match get_u64_field(v, "expires_in") {
        Some(n) => n,
        None => {
            return Err(ErrorKind::Decode);
        },
    };
    let id_token = match get_str_field(v, "id_token") {
        Some(s) => s,
        None => {
            return Err(ErrorKind::Decode);
        },
    };
    let raw_type = match get_str_field(v, "token_type") {
        Some(s) => s,
        None => {
            return Err(ErrorKind::Decode);
        },
    };
    let token_type = token_type_of(raw_type.as_str());
    Ok(Token { access_token, expires_in, id_token, token_type })
}

/// Decode the token endpoint's reply text.
pub fn token_from_json(s: &str) -> (r: Result<Token, ErrorKind>)
    ensures
        match json_parse(s@) {
            Some(j) => {
                if token_decodes(j) {
                    r matches Ok(t) && token_matches(t, j)
                } else {
                    r == Err::<Token, ErrorKind>(ErrorKind::Decode)
                }
            },
            None => r == Err::<Token, ErrorKind>(ErrorKind::Decode),
        },
{
    match parse_json(s) {
        Some(v) => token_from_value(&v),
        None => Err(ErrorKind::Decode),
    }
}

} // verus!
