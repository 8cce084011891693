//! Decoders for structured bodies, provided by `serde_json` and
//! `serde_urlencoded`.

use serde::de::DeserializeOwned;
use vstd::prelude::*;

verus! {

/// `serde_json::from_slice`: decodes one JSON document into `T`, or gives the
/// decoder's message. Nothing is claimed about which of the two comes back.
#[verifier::external_body]
pub(crate) fn decode_json<T: DeserializeOwned>(body: &[u8]) -> (r: Result<T, String>) {
    match serde_json::from_slice(body) {
        Ok(value) => Ok(value),
        Err(e) => Err(e.to_string()),
    }
}

/// `serde_urlencoded::from_bytes`: decodes a form-encoded body into `T`, or
/// gives the decoder's message. Nothing is claimed about which of the two
/// comes back.
#[verifier::external_body]
pub(crate) fn decode_urlencoded<T: DeserializeOwned>(body: &[u8]) -> (r: Result<T, String>) {
    match serde_urlencoded::from_bytes(body) {
        Ok(value) => Ok(value),
        Err(e) => Err(e.to_string()),
    }
}

} // verus!
