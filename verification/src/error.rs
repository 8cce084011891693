//! The errors of body extraction and the client-facing error they turn into.

use crate::content_type::{ApiEndpointBodyContentType, BodyFormat};
use crate::text::{decimal, decimal_text};
use vstd::prelude::*;
use vstd::string::*;

verus! {

/// Why extraction failed.
#[derive(Debug)]
pub enum BodyError {
    /// The body stream itself failed; the message is the stream's own.
    Transport { message: String },
    /// The body is larger than the configured cap.
    Oversize { cap: usize },
    /// The Content-Type header holds bytes that are not header text.
    InvalidContentType,
    /// The Content-Type names no media type that the server knows.
    UnsupportedMediaType { raw: String },
    /// The request's media type cannot be decoded as what the handler expects.
    ContentTypeMismatch { expected: ApiEndpointBodyContentType, found: ApiEndpointBodyContentType },
    /// The body does not decode into the handler's type.
    Deserialize { format: BodyFormat, message: String },
    /// The body was asked for as text and is not valid UTF-8.
    Utf8Decode { message: String },
    /// A captured path segment does not convert to its parameter's type.
    PathParamType { message: String },
}

/// The mathematical value of a `BodyError`.
pub enum BodyErrorView {
    Transport { message: Seq<char> },
    Oversize { cap: nat },
    InvalidContentType,
    UnsupportedMediaType { raw: Seq<char> },
    ContentTypeMismatch { expected: ApiEndpointBodyContentType, found: ApiEndpointBodyContentType },
    Deserialize { format: BodyFormat, message: Seq<char> },
    Utf8Decode { message: Seq<char> },
    PathParamType { message: Seq<char> },
}

impl View for BodyError {
    type V = BodyErrorView;

    open spec fn view(&self) -> BodyErrorView {
        match self {
            BodyError::Transport { message } => BodyErrorView::Transport { message: message@ },
            BodyError::Oversize { cap } => BodyErrorView::Oversize { cap: *cap as nat },
            BodyError::InvalidContentType => BodyErrorView::InvalidContentType,
            BodyError::UnsupportedMediaType { raw } => BodyErrorView::UnsupportedMediaType {
                raw: raw@,
            },
            BodyError::ContentTypeMismatch { expected, found } => {
                BodyErrorView::ContentTypeMismatch { expected: *expected, found: *found }
            },
            BodyError::Deserialize { format, message } => BodyErrorView::Deserialize {
                format: *format,
                message: message@,
            },
            BodyError::Utf8Decode { message } => BodyErrorView::Utf8Decode { message: message@ },
            BodyError::PathParamType { message } => BodyErrorView::PathParamType {
                message: message@,
            },
        }
    }
}

/// A result with its error taken by its view.
pub open spec fn outcome<T>(r: Result<T, BodyError>) -> Result<T, BodyErrorView> {
    match r {
        Ok(v) => Ok(v),
        Err(e) => Err(e@),
    }
}

/// The label under which a decoder's failure is reported.
pub open spec fn format_label(format: BodyFormat) -> Seq<char> {
    match format {
        BodyFormat::Json => "JSON"@,
        BodyFormat::UrlEncoded => "URL-encoded"@,
    }
}

/// The human-readable message of each error.
pub open spec fn message_text(e: BodyErrorView) -> Seq<char> {
    match e {
        BodyErrorView::Transport { message } => message,
        BodyErrorView::Oversize { cap } => "request body exceeded maximum size of "@
            + decimal_text(cap) + " bytes"@,
        BodyErrorView::InvalidContentType => "invalid content type: "@
            + "failed to convert header to a str"@,
        BodyErrorView::UnsupportedMediaType { raw } => raw,
        BodyErrorView::ContentTypeMismatch { expected, found } => "expected content type \""@
            + expected.mime_text() + "\", got \""@ + found.mime_text() + "\""@,
        BodyErrorView::Deserialize { format, message } => "unable to parse "@ + format_label(
            format,
        ) + " body: "@ + message,
        BodyErrorView::Utf8Decode { message } => "failed to parse body as UTF-8 string: "@
            + message,
        BodyErrorView::PathParamType { message } => "bad parameter in URL path: "@ + message,
    }
}

/// The status with which every extraction failure is reported.
pub const STATUS_BAD_REQUEST: u16 = 400;

/// An error as it is reported to the client.
#[derive(Debug)]
pub struct HttpError {
    pub status_code: u16,
    pub error_code: Option<String>,
    pub external_message: String,
    pub internal_message: String,
}

impl HttpError {
    /// An error with status 400 whose message is shown to the client and
    /// logged alike.
    pub fn for_bad_request(error_code: Option<String>, message: String) -> (e: HttpError)
        ensures
            e.status_code == STATUS_BAD_REQUEST,
            e.error_code == error_code,
            e.external_message@ == message@,
            e.internal_message@ == message@,
    {
        let internal = message.clone();
        HttpError {
            status_code: STATUS_BAD_REQUEST,
            error_code,
            external_message: message,
            internal_message: internal,
        }
    }
}

fn label_of(format: BodyFormat) -> (s: &'static str)
    ensures
        s@ == format_label(format),
{
    match format {
        BodyFormat::Json => "JSON",
        BodyFormat::UrlEncoded => "URL-encoded",
    }
}

impl BodyError {
    /// Renders the error's message.
    pub fn message(&self) -> (s: String)
        ensures
            s@ == message_text(self@),
    {
        match self {
            BodyError::Transport { message } => message.clone(),
            BodyError::Oversize { cap } => {
                let mut s = String::from_str("request body exceeded maximum size of ");
                let digits = decimal(*cap);
                s.append(digits.as_str());
                s.append(" bytes");
                s
            },
            BodyError::InvalidContentType => {
                let mut s = String::from_str("invalid content type: ");
                s.append("failed to convert header to a str");
                s
            },
            BodyError::UnsupportedMediaType { raw } => raw.clone(),
            BodyError::ContentTypeMismatch { expected, found } => {
                let mut s = String::from_str("expected content type \"");
                s.append(expected.mime_type());
                s.append("\", got \"");
                s.append(found.mime_type());
                s.append("\"");
                s
            },
            BodyError::Deserialize { format, message } => {
                let mut s = String::from_str("unable to parse ");
                s.append(label_of(*format));
                s.append(" body: ");
                s.append(message.as_str());
                s
            },
            BodyError::Utf8Decode { message } => {
                let mut s = String::from_str("failed to parse body as UTF-8 string: ");
                s.append(message.as_str());
                s
            },
            BodyError::PathParamType { message } => {
                let mut s = String::from_str("bad parameter in URL path: ");
                s.append(message.as_str());
                s
            },
        }
    }

    /// The client-facing form of the error: always status 400, with the
    /// error's message.
    pub fn to_http_error(&self) -> (e: HttpError)
        ensures
            e.status_code == STATUS_BAD_REQUEST,
            e.error_code is None,
            e.external_message@ == message_text(self@),
            e.internal_message@ == message_text(self@),
    {
        HttpError::for_bad_request(None, self.message())
    }
}

} // verus!
