use crate::error::SessionError;
use vstd::prelude::*;
use vstd::utf8::{decode_utf8, valid_utf8};

verus! {

/// A message delivered by the transport: its topic and its raw payload.
pub struct InboundMessage {
    pub topic: String,
    pub payload: Vec<u8>,
}

impl View for InboundMessage {
    type V = (Seq<char>, Seq<u8>);

    open spec fn view(&self) -> (Seq<char>, Seq<u8>) {
        (self.topic@, self.payload@)
    }
}

/// What a payload says of an expected text: whether it decodes, as UTF-8,
/// to exactly that text; a payload that is not UTF-8 is a decode error.
pub open spec fn payload_verdict(payload: Seq<u8>, expected: Seq<char>) -> Result<bool, SessionError> {
    if valid_utf8(payload) {
        Ok(decode_utf8(payload) == expected)
    } else {
        Err(SessionError::DecodeError)
    }
}

/// Relies on std::str::from_utf8: it accepts exactly the well-formed UTF-8
/// byte sequences and then reads them as the characters they encode.
#[verifier::external_body]
fn utf8_text(bytes: &[u8]) -> (r: Option<String>)
    ensures
        r is Some <==> valid_utf8(bytes@),
        r matches Some(text) ==> text@ == decode_utf8(bytes@),
{
    match std::str::from_utf8(bytes) {
        Ok(text) => Some(text.to_string()),
        Err(_) => None,
    }
}

/// Decodes a payload as UTF-8 text.
pub fn decode_payload(payload: &[u8]) -> (r: Result<String, SessionError>)
    ensures
        match r {
            Ok(text) => valid_utf8(payload@) && text@ == decode_utf8(payload@),
            Err(e) => !valid_utf8(payload@) && e == SessionError::DecodeError,
        },
{
    match utf8_text(payload) {
        Some(text) => Ok(text),
        None => Err(SessionError::DecodeError),
    }
}

/// Decodes a payload and compares it with the expected text.
pub fn payload_matches(payload: &[u8], expected: &str) -> (r: Result<bool, SessionError>)
    ensures
        r == payload_verdict(payload@, expected@),
{
    let text = decode_payload(payload)?;
    let expected_text = expected.to_owned();
    Ok(text == expected_text)
}

} // verus!
