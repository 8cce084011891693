//! The body extractors: `TypedBody`, which decodes the body into a type of
//! the handler's, and `UntypedBody`, which hands out the raw bytes.

use crate::buffer::{buffer_as_slice, buffer_contents};
use crate::content_type::{ApiEndpointBodyContentType, BodyFormat};
use crate::decode::{decode_json, decode_urlencoded};
use crate::error::{BodyError, BodyErrorView};
use crate::metadata::{
    ApiEndpointParameter, ApiEndpointParameterMetadata, ApiSchemaGenerator, ExtensionMode,
    ExtractorMetadata, InstanceType, SchemaFormat,
};
use crate::negotiate::{dispatch, dispatched, header_view, negotiate, negotiated};
use crate::reader::{
    contents_of, http_read_body, is_terminal, read_result, result_of, BodyReader,
};
use crate::text::{str_from_utf8, utf8_error_text};
use bytes::Bytes;
use serde::de::DeserializeOwned;
use vstd::prelude::*;
use vstd::string::*;
use vstd::utf8::*;

verus! {

/// What an extractor knows of the request's surroundings.
#[derive(Clone, Copy, Debug)]
pub struct RequestContext {
    /// The most bytes that a request body may have.
    pub request_body_max_bytes: usize,
    /// The body kind that the handler expects.
    pub body_content_type: ApiEndpointBodyContentType,
}

/// A request body decoded into `BodyType`.
#[derive(Debug)]
pub struct TypedBody<BodyType> {
    inner: BodyType,
}

/// The decoder for a request, or the error that ends extraction before any
/// decoding: a header that cannot be negotiated, or a kind that is not the
/// one expected.
pub open spec fn load_plan(expected: ApiEndpointBodyContentType, header: Option<Seq<u8>>) -> Result<
    BodyFormat,
    BodyErrorView,
> {
    match negotiated(header) {
        Err(e) => Err(e),
        Ok(found) => dispatched(expected, found),
    }
}

/// What holds of a typed extraction once the body is at hand: where no
/// decoder is chosen, the result is the plan's error; where one is, the
/// result is a value or that decoder's failure.
pub open spec fn loaded<T>(
    plan: Result<BodyFormat, BodyErrorView>,
    r: Result<TypedBody<T>, BodyError>,
) -> bool {
    match plan {
        Err(e) => r is Err && r->Err_0@ == e,
        Ok(format) => r is Ok || (r->Err_0@ matches BodyErrorView::Deserialize { format: f, .. }
            && f == format),
    }
}

impl<BodyType> TypedBody<BodyType> {
    /// The decoded value.
    pub closed spec fn value(&self) -> BodyType {
        self.inner
    }

    /// Hands out the decoded value.
    pub fn into_inner(self) -> (v: BodyType)
        ensures
            v == self.value(),
    {
        self.inner
    }

    /// The parameter that a typed body stands for: a required body of the
    /// given kind, whose schema is generated from `BodyType` on demand.
    pub fn metadata(content_type: ApiEndpointBodyContentType) -> (m: ExtractorMetadata)
        ensures
            m.extension_mode == ExtensionMode::Plain,
            m.parameters@ == seq![
                ApiEndpointParameter {
                    metadata: ApiEndpointParameterMetadata::Body(content_type),
                    required: true,
                    schema: ApiSchemaGenerator::Gen,
                },
            ],
    {
        let body = ApiEndpointParameter::new_body(content_type, true, ApiSchemaGenerator::Gen);
        let mut parameters: Vec<ApiEndpointParameter> = Vec::new();
        parameters.push(body);
        assert(parameters@ =~= seq![body]);
        ExtractorMetadata { extension_mode: ExtensionMode::Plain, parameters }
    }
}

/// Wraps what a decoder returned: its value as the typed body, its failure as
/// a decoding error of that format with the decoder's message.
pub fn typed_body_from_decoded<BodyType>(format: BodyFormat, decoded: Result<BodyType, String>) -> (r:
    Result<TypedBody<BodyType>, BodyError>)
    ensures
        match decoded {
            Ok(v) => r is Ok && r->Ok_0.value() == v,
            Err(message) => r is Err && r->Err_0@ == (BodyErrorView::Deserialize {
                format,
                message: message@,
            }),
        },
{
    match decoded {
        Ok(v) => Ok(TypedBody { inner: v }),
        Err(message) => Err(BodyError::Deserialize { format, message }),
    }
}

/// Decodes a body that has been read: negotiates the request's Content-Type,
/// holds it against what the handler expects, and runs the decoder of that
/// kind.
pub fn http_request_load_body<BodyType: DeserializeOwned>(
    rqctx: &RequestContext,
    content_type: Option<&[u8]>,
    body: &Bytes,
) -> (r: Result<TypedBody<BodyType>, BodyError>)
    ensures
        loaded(load_plan(rqctx.body_content_type, header_view(content_type)), r),
{
    let found = match negotiate(content_type) {
        Ok(found) => found,
        Err(e) => {
            return Err(e);
        },
    };
    let format = match dispatch(rqctx.body_content_type, found) {
        Ok(format) => format,
        Err(e) => {
            return Err(e);
        },
    };
    match format {
        BodyFormat::Json => typed_body_from_decoded(format, decode_json(buffer_as_slice(body))),
        BodyFormat::UrlEncoded => typed_body_from_decoded(
            format,
            decode_urlencoded(buffer_as_slice(body)),
        ),
    }
}

impl<BodyType: DeserializeOwned> TypedBody<BodyType> {
    /// Extracts a typed body from a request whose body arrives as `chunks`.
    /// A body over the cap fails before anything else is looked at.
    pub fn from_request(rqctx: &RequestContext, content_type: Option<&[u8]>, chunks: &Vec<Bytes>) -> (r:
        Result<TypedBody<BodyType>, BodyError>)
        ensures
            match read_result(contents_of(chunks@), rqctx.request_body_max_bytes as nat) {
                Err(e) => r is Err && r->Err_0@ == e,
                Ok(_) => loaded(
                    load_plan(rqctx.body_content_type, header_view(content_type)),
                    r,
                ),
            },
    {
        match http_read_body(chunks, rqctx.request_body_max_bytes) {
            Ok(body) => http_request_load_body(rqctx, content_type, &body),
            Err(e) => Err(e),
        }
    }

    /// Extracts a typed body from what a finished reader holds.
    pub fn from_reader(rqctx: &RequestContext, content_type: Option<&[u8]>, reader: BodyReader) -> (r:
        Result<TypedBody<BodyType>, BodyError>)
        requires
            is_terminal(reader@.phase),
        ensures
            match result_of(reader@) {
                Err(e) => r is Err && r->Err_0@ == e,
                Ok(_) => loaded(
                    load_plan(rqctx.body_content_type, header_view(content_type)),
                    r,
                ),
            },
    {
        match reader.finish() {
            Ok(body) => http_request_load_body(rqctx, content_type, &body),
            Err(e) => Err(e),
        }
    }
}

/// A request body as the bytes that arrived.
#[derive(Debug)]
pub struct UntypedBody {
    content: Bytes,
}

impl View for UntypedBody {
    type V = Seq<u8>;

    closed spec fn view(&self) -> Seq<u8> {
        buffer_contents(self.content)
    }
}

/// What reading the body as text yields: the text that the bytes encode, or
/// the decoding error where they are not valid UTF-8.
pub open spec fn text_of(bytes: Seq<u8>) -> Result<Seq<char>, BodyErrorView> {
    if valid_utf8(bytes) {
        Ok(decode_utf8(bytes))
    } else {
        Err(BodyErrorView::Utf8Decode { message: utf8_error_text(bytes) })
    }
}

impl UntypedBody {
    /// The body's bytes.
    pub fn as_bytes(&self) -> (b: &[u8])
        ensures
            b@ == self@,
    {
        buffer_as_slice(&self.content)
    }

    /// The body as text, where it is valid UTF-8.
    pub fn as_str(&self) -> (r: Result<&str, BodyError>)
        ensures
            match r {
                Ok(s) => text_of(self@) == Ok::<Seq<char>, BodyErrorView>(s@),
                Err(e) => text_of(self@) == Err::<Seq<char>, BodyErrorView>(e@),
            },
    {
        match str_from_utf8(self.as_bytes()) {
            Ok(s) => {
                proof {
                    encode_utf8_decode_utf8(s@);
                }
                Ok(s)
            },
            Err(message) => Err(BodyError::Utf8Decode { message }),
        }
    }

    /// Extracts the raw body of a request whose body arrives as `chunks`: the
    /// whole body where it fits the cap, the oversize error where it does
    /// not. The Content-Type plays no part.
    pub fn from_request(rqctx: &RequestContext, chunks: &Vec<Bytes>) -> (r: Result<
        UntypedBody,
        BodyError,
    >)
        ensures
            match r {
                Ok(b) => read_result(contents_of(chunks@), rqctx.request_body_max_bytes as nat)
                    == Ok::<Seq<u8>, BodyErrorView>(b@),
                Err(e) => read_result(contents_of(chunks@), rqctx.request_body_max_bytes as nat)
                    == Err::<Seq<u8>, BodyErrorView>(e@),
            },
    {
        match http_read_body(chunks, rqctx.request_body_max_bytes) {
            Ok(content) => Ok(UntypedBody { content }),
            Err(e) => Err(e),
        }
    }

    /// Extracts the raw body from what a finished reader holds.
    pub fn from_reader(reader: BodyReader) -> (r: Result<UntypedBody, BodyError>)
        requires
            is_terminal(reader@.phase),
        ensures
            match r {
                Ok(b) => result_of(reader@) == Ok::<Seq<u8>, BodyErrorView>(b@),
                Err(e) => result_of(reader@) == Err::<Seq<u8>, BodyErrorView>(e@),
            },
    {
        match reader.finish() {
            Ok(content) => Ok(UntypedBody { content }),
            Err(e) => Err(e),
        }
    }

    /// The parameter that an untyped body stands for: a required body of
    /// raw bytes, described as a string in binary format, whatever kind the
    /// endpoint declares.
    pub fn metadata(_content_type: ApiEndpointBodyContentType) -> (m: ExtractorMetadata)
        ensures
            m.extension_mode == ExtensionMode::Plain,
            m.parameters@ == seq![
                ApiEndpointParameter {
                    metadata: ApiEndpointParameterMetadata::Body(
                        ApiEndpointBodyContentType::Bytes,
                    ),
                    required: true,
                    schema: ApiSchemaGenerator::Static {
                        instance_type: InstanceType::String,
                        format: SchemaFormat::Binary,
                    },
                },
            ],
    {
        let body = ApiEndpointParameter::new_body(
            ApiEndpointBodyContentType::Bytes,
            true,
            ApiSchemaGenerator::Static {
                instance_type: InstanceType::String,
                format: SchemaFormat::Binary,
            },
        );
        let mut parameters: Vec<ApiEndpointParameter> = Vec::new();
        parameters.push(body);
        assert(parameters@ =~= seq![body]);
        ExtractorMetadata { extension_mode: ExtensionMode::Plain, parameters }
    }
}

/// Where the request declares a kind other than the one expected, no decoder
/// runs: extraction fails with the mismatch that names both kinds.
pub proof fn lemma_mismatch_fails_extraction<T>(
    expected: ApiEndpointBodyContentType,
    header: Option<Seq<u8>>,
    found: ApiEndpointBodyContentType,
    r: Result<TypedBody<T>, BodyError>,
)
    requires
        negotiated(header) == Ok::<ApiEndpointBodyContentType, BodyErrorView>(found),
        expected != found,
        loaded(load_plan(expected, header), r),
    ensures
        r is Err,
        r->Err_0@ == (BodyErrorView::ContentTypeMismatch { expected, found }),
{
}

/// Where the request declares the kind expected and that kind is JSON or
/// form data, the decoder of that kind runs: extraction yields a value or
/// that decoder's failure, and no other error.
pub proof fn lemma_match_attempts_decode<T>(
    expected: ApiEndpointBodyContentType,
    header: Option<Seq<u8>>,
    r: Result<TypedBody<T>, BodyError>,
)
    requires
        negotiated(header) == Ok::<ApiEndpointBodyContentType, BodyErrorView>(expected),
        expected == ApiEndpointBodyContentType::Json || expected
            == ApiEndpointBodyContentType::UrlEncoded,
        loaded(load_plan(expected, header), r),
    ensures
        r is Ok || r->Err_0@ is Deserialize,
{
}

/// Text that is encoded as UTF-8 is read back from an untyped body exactly.
pub proof fn lemma_text_round_trip(text: Seq<char>)
    ensures
        text_of(encode_utf8(text)) == Ok::<Seq<char>, BodyErrorView>(text),
{
    encode_utf8_valid_utf8(text);
    encode_utf8_decode_utf8(text);
}

/// A body of the one byte `0xFF` is not text.
pub proof fn lemma_lone_ff_is_not_text()
    ensures
        text_of(seq![0xFFu8]) is Err,
{
    let b = seq![0xFFu8];
    assert(b[0] == 0xFF);
    assert(!valid_utf8(b)) by {
        reveal_with_fuel(valid_utf8, 2);
        assert(0xFFu8 & 0x80 != 0 && 0xFFu8 & 0xe0 != 0xc0 && 0xFFu8 & 0xf0 != 0xe0 && 0xFFu8
            & 0xf8 != 0xf0) by (bit_vector);
    }
}

} // verus!
