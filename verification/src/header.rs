//! Header values as text.

use vstd::prelude::*;

use crate::text::opt_string;

verus! {

/// A byte that stands for itself in a header: a visible ASCII character, a space or a tab.
pub open spec fn is_plain(byte: u8) -> bool {
    32 <= byte < 127 || byte == 9
}

/// The text of a header value, if all its bytes are plain.
pub open spec fn text_of(value: Seq<u8>) -> Option<Seq<char>> {
    if forall|i: int| 0 <= i < value.len() ==> is_plain(#[trigger] value[i]) {
        Some(value.map_values(|byte: u8| byte as char))
    } else {
        None
    }
}

/// The text of a header that may be missing, or `default` where it is missing or no text.
pub open spec fn text_or(value: Option<Vec<u8>>, default: Seq<char>) -> Seq<char> {
    match value {
        Some(bytes) => match text_of(bytes@) {
            Some(text) => text,
            None => default,
        },
        None => default,
    }
}

/// Reads a header value with `axum::http::HeaderValue::from_bytes` and `HeaderValue::to_str`.
///
/// There is a text exactly where every byte is plain, and then each byte is one character of it.
#[verifier::external_body]
fn header_text(value: &Vec<u8>) -> (text: Option<String>)
    ensures
        opt_string(text) == text_of(value@),
{
    match axum::http::HeaderValue::from_bytes(value) {
        Ok(header) => match header.to_str() {
            Ok(text) => Some(text.to_string()),
            Err(_) => None,
        },
        Err(_) => None,
    }
}

/// The text of a header that may be missing, or `default` where it is missing or no text.
pub fn header_or(value: &Option<Vec<u8>>, default: &str) -> (text: String)
    ensures
        text@ == text_or(*value, default@),
{
    match value {
        Some(bytes) => match header_text(bytes) {
            Some(text) => text,
            None => default.to_string(),
        },
        None => default.to_string(),
    }
}

} // verus!
