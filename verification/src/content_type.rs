//! Logical body kinds, their media types, and the negotiation of a request's
//! Content-Type header against what a handler expects.

use vstd::prelude::*;
use vstd::string::*;
use vstd::utf8::*;

verus! {

/// Media type of raw bytes.
pub const CONTENT_TYPE_OCTET_STREAM: &'static str = "application/octet-stream";

/// Media type of plain JSON data.
pub const CONTENT_TYPE_JSON: &'static str = "application/json";

/// Media type of newline-delimited JSON data. No body kind uses it yet.
pub const CONTENT_TYPE_NDJSON: &'static str = "application/x-ndjson";

/// Media type of form data.
pub const CONTENT_TYPE_URL_ENCODED: &'static str = "application/x-www-form-urlencoded";

/// The closed set of body kinds that a handler can expect.
#[derive(Clone, Copy, Debug, PartialEq, Eq, Structural)]
pub enum ApiEndpointBodyContentType {
    /// `application/octet-stream`
    Bytes,
    /// `application/json`
    Json,
    /// `application/x-www-form-urlencoded`
    UrlEncoded,
}

/// The body kinds for which a decoder exists.
#[derive(Clone, Copy, Debug, PartialEq, Eq, Structural)]
pub enum BodyFormat {
    Json,
    UrlEncoded,
}

impl ApiEndpointBodyContentType {
    /// The canonical media type of the kind.
    pub open spec fn mime_text(self) -> Seq<char> {
        match self {
            ApiEndpointBodyContentType::Bytes => "application/octet-stream"@,
            ApiEndpointBodyContentType::Json => "application/json"@,
            ApiEndpointBodyContentType::UrlEncoded => "application/x-www-form-urlencoded"@,
        }
    }

    /// The kind whose canonical media type is exactly `mime`, if any.
    pub open spec fn of_mime(mime: Seq<char>) -> Option<ApiEndpointBodyContentType> {
        if mime == ApiEndpointBodyContentType::Bytes.mime_text() {
            Some(ApiEndpointBodyContentType::Bytes)
        } else if mime == ApiEndpointBodyContentType::Json.mime_text() {
            Some(ApiEndpointBodyContentType::Json)
        } else if mime == ApiEndpointBodyContentType::UrlEncoded.mime_text() {
            Some(ApiEndpointBodyContentType::UrlEncoded)
        } else {
            None
        }
    }

    /// The canonical media type of the kind.
    pub fn mime_type(&self) -> (s: &'static str)
        ensures
            s@ == self.mime_text(),
    {
        match self {
            ApiEndpointBodyContentType::Bytes => CONTENT_TYPE_OCTET_STREAM,
            ApiEndpointBodyContentType::Json => CONTENT_TYPE_JSON,
            ApiEndpointBodyContentType::UrlEncoded => CONTENT_TYPE_URL_ENCODED,
        }
    }

    /// Looks a media type up in the table of kinds. The match is exact: the
    /// caller strips parameters and folds case first. An unknown media type
    /// is handed back as the error.
    pub fn from_mime_type(mime_type: &str) -> (r: Result<ApiEndpointBodyContentType, String>)
        ensures
            match ApiEndpointBodyContentType::of_mime(mime_type@) {
                Some(kind) => r == Ok::<ApiEndpointBodyContentType, String>(kind),
                None => r is Err && r->Err_0@ == mime_type@,
            },
    {
        if str_eq(mime_type, CONTENT_TYPE_OCTET_STREAM) {
            Ok(ApiEndpointBodyContentType::Bytes)
        } else if str_eq(mime_type, CONTENT_TYPE_JSON) {
            Ok(ApiEndpointBodyContentType::Json)
        } else if str_eq(mime_type, CONTENT_TYPE_URL_ENCODED) {
            Ok(ApiEndpointBodyContentType::UrlEncoded)
        } else {
            Err(String::from_str(mime_type))
        }
    }
}

/// Each kind is found again under its own media type.
pub proof fn lemma_mime_round_trip(kind: ApiEndpointBodyContentType)
    ensures
        ApiEndpointBodyContentType::of_mime(kind.mime_text()) == Some(kind),
{
    reveal_strlit("application/octet-stream");
    reveal_strlit("application/json");
    reveal_strlit("application/x-www-form-urlencoded");
    assert("application/octet-stream"@.len() == 24);
    assert("application/json"@.len() == 16);
    assert("application/x-www-form-urlencoded"@.len() == 33);
}

/// Whether two byte slices hold the same bytes.
pub fn bytes_eq(x: &[u8], y: &[u8]) -> (r: bool)
    ensures
        r == (x@ == y@),
{
    if x.len() != y.len() {
        return false;
    }
    let mut i: usize = 0;
    while i < x.len()
        invariant
            x@.len() == y@.len(),
            i <= x@.len(),
            forall|j: int| 0 <= j < i ==> x@[j] == y@[j],
        decreases x@.len() - i,
    {
        if x[i] != y[i] {
            return false;
        }
        i += 1;
    }
    assert(x@ =~= y@);
    true
}

/// Whether two strings hold the same text.
pub fn str_eq(a: &str, b: &str) -> (r: bool)
    ensures
        r == (a@ == b@),
{
    proof {
        encode_utf8_decode_utf8(a@);
        encode_utf8_decode_utf8(b@);
    }
    bytes_eq(a.as_bytes(), b.as_bytes())
}

} // verus!
