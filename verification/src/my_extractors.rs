//! What the plain handlers answer.

use vstd::prelude::*;
use vstd::utf8::{decode_utf8, encode_utf8, encode_utf8_decode_utf8, encode_utf8_valid_utf8, valid_utf8};

verus! {

/// Calls `String::from_utf8`.
///
/// Trusted: it fails exactly when `bytes` are not valid UTF-8, and otherwise
/// returns the string whose bytes they are.
#[verifier::external_body]
fn text_from_utf8(bytes: Vec<u8>) -> (r: Option<String>)
    ensures
        match r {
            Some(text) => encode_utf8(text@) == bytes@,
            None => !valid_utf8(bytes@),
        },
{
    String::from_utf8(bytes).ok()
}

/// A fixed greeting.
pub fn string_handler() -> (r: String)
    ensures
        r@ == "Hello, from string handler!"@,
{
    String::from_str("Hello, from string handler!")
}

/// Echoes a request body that is valid UTF-8 as text, and answers any other
/// body with the status 400.
pub fn echo_bytes(body: Vec<u8>) -> (r: Result<String, u16>)
    ensures
        match r {
            Ok(text) => valid_utf8(body@) && text@ == decode_utf8(body@),
            Err(status) => status == 400 && !valid_utf8(body@),
        },
{
    match text_from_utf8(body) {
        Some(text) => {
            proof {
                encode_utf8_valid_utf8(text@);
                encode_utf8_decode_utf8(text@);
            }
            Ok(text)
        },
        None => Err(400),
    }
}

/// Prefixes the request body with `Receive Body:`.
pub fn input_string(body: String) -> (r: String)
    ensures
        r@ == "Receive Body:"@ + body@,
{
    let mut output_string = String::from_str("Receive Body:");
    output_string.append(body.as_str());
    output_string
}

} // verus!
