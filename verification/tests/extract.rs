use bytes::Bytes;
use request_body::body::{http_request_load_body, typed_body_from_decoded, RequestContext, TypedBody, UntypedBody};
use request_body::content_type::{ApiEndpointBodyContentType, BodyFormat};
use request_body::error::BodyError;
use request_body::metadata::{
    ApiEndpointParameter, ApiEndpointParameterMetadata, ApiSchemaGenerator, ExtensionMode,
    InstanceType, SchemaFormat,
};
use request_body::path_params::{http_extract_path_params, names_missing_field};
use request_body::reader::BodyReader;
use serde::de::value::{Error as ValueError, MapDeserializer};
use serde::Deserialize;
use std::collections::BTreeMap;

fn ctx(cap: usize, kind: ApiEndpointBodyContentType) -> RequestContext {
    RequestContext { request_body_max_bytes: cap, body_content_type: kind }
}

fn one_chunk(body: &[u8]) -> Vec<Bytes> {
    vec![Bytes::copy_from_slice(body)]
}

#[test]
fn json_body_without_content_type() {
    let rqctx = ctx(1024, ApiEndpointBodyContentType::Json);
    let body: TypedBody<BTreeMap<String, i64>> =
        TypedBody::from_request(&rqctx, None, &one_chunk(b"{\"x\":1}")).unwrap();
    let value = body.into_inner();
    assert_eq!(value.len(), 1);
    assert_eq!(value["x"], 1);
}

#[test]
fn json_round_trip() {
    let mut value: BTreeMap<String, Vec<i64>> = BTreeMap::new();
    value.insert(String::from("a"), vec![1, -2, 3]);
    value.insert(String::from("b \"quoted\""), vec![]);
    let encoded = serde_json::to_vec(&value).unwrap();
    let rqctx = ctx(encoded.len(), ApiEndpointBodyContentType::Json);
    let body: TypedBody<BTreeMap<String, Vec<i64>>> =
        TypedBody::from_request(&rqctx, Some(b"application/json"), &one_chunk(&encoded)).unwrap();
    assert_eq!(body.into_inner(), value);
}

#[test]
fn json_body_split_over_chunks() {
    let rqctx = ctx(64, ApiEndpointBodyContentType::Json);
    let chunks = vec![Bytes::from_static(b"[1, "), Bytes::from_static(b"2, 3"), Bytes::from_static(b"]")];
    let body: TypedBody<Vec<u8>> =
        TypedBody::from_request(&rqctx, Some(b"Application/JSON; charset=utf-8"), &chunks).unwrap();
    assert_eq!(body.into_inner(), vec![1, 2, 3]);
}

#[test]
fn url_encoded_body() {
    let rqctx = ctx(64, ApiEndpointBodyContentType::UrlEncoded);
    let body: TypedBody<BTreeMap<String, String>> = TypedBody::from_request(
        &rqctx,
        Some(b"application/x-www-form-urlencoded"),
        &one_chunk(b"bread=baguette&cheese=comt%C3%A9"),
    )
    .unwrap();
    let value = body.into_inner();
    assert_eq!(value["bread"], "baguette");
    assert_eq!(value["cheese"], "comt\u{e9}");
}

#[test]
fn malformed_json_is_a_decoding_error() {
    let rqctx = ctx(64, ApiEndpointBodyContentType::Json);
    let r: Result<TypedBody<BTreeMap<String, i64>>, BodyError> =
        TypedBody::from_request(&rqctx, None, &one_chunk(b"{\"x\":"));
    let err = r.unwrap_err();
    assert!(matches!(&err, BodyError::Deserialize { format: BodyFormat::Json, .. }));
    assert!(err.message().starts_with("unable to parse JSON body: "));
    assert_eq!(err.to_http_error().status_code, 400);
}

#[test]
fn malformed_form_is_a_decoding_error() {
    let rqctx = ctx(64, ApiEndpointBodyContentType::UrlEncoded);
    let r: Result<TypedBody<BTreeMap<String, i64>>, BodyError> = TypedBody::from_request(
        &rqctx,
        Some(b"application/x-www-form-urlencoded"),
        &one_chunk(b"x=notanumber"),
    );
    let err = r.unwrap_err();
    assert!(matches!(&err, BodyError::Deserialize { format: BodyFormat::UrlEncoded, .. }));
    assert!(err.message().starts_with("unable to parse URL-encoded body: "));
}

#[test]
fn text_plain_is_unsupported_whatever_is_expected() {
    for expected in [
        ApiEndpointBodyContentType::Json,
        ApiEndpointBodyContentType::UrlEncoded,
        ApiEndpointBodyContentType::Bytes,
    ] {
        let rqctx = ctx(64, expected);
        let r: Result<TypedBody<BTreeMap<String, i64>>, BodyError> =
            TypedBody::from_request(&rqctx, Some(b"text/plain"), &one_chunk(b"{\"x\":1}"));
        assert!(matches!(
            r.unwrap_err(),
            BodyError::UnsupportedMediaType { raw } if raw == "text/plain"
        ));
    }
}

#[test]
fn different_kinds_are_a_mismatch_naming_both() {
    let kinds = [
        (ApiEndpointBodyContentType::Bytes, &b"application/octet-stream"[..]),
        (ApiEndpointBodyContentType::Json, &b"application/json"[..]),
        (ApiEndpointBodyContentType::UrlEncoded, &b"application/x-www-form-urlencoded"[..]),
    ];
    for (expected, _) in kinds {
        for (found, header) in kinds {
            if expected == found {
                continue;
            }
            let rqctx = ctx(64, expected);
            let r: Result<TypedBody<BTreeMap<String, i64>>, BodyError> =
                TypedBody::from_request(&rqctx, Some(header), &one_chunk(b"{\"x\":1}"));
            assert!(matches!(
                r.unwrap_err(),
                BodyError::ContentTypeMismatch { expected: e, found: f } if e == expected && f == found
            ));
        }
    }
}

#[test]
fn expected_bytes_never_decodes() {
    let rqctx = ctx(64, ApiEndpointBodyContentType::Bytes);
    let r: Result<TypedBody<Vec<u8>>, BodyError> =
        http_request_load_body(&rqctx, Some(b"application/octet-stream"), &Bytes::from_static(b"[1]"));
    assert!(matches!(
        r.unwrap_err(),
        BodyError::ContentTypeMismatch {
            expected: ApiEndpointBodyContentType::Bytes,
            found: ApiEndpointBodyContentType::Bytes
        }
    ));
}

#[test]
fn oversize_comes_before_the_content_type() {
    let rqctx = ctx(3, ApiEndpointBodyContentType::Json);
    let r: Result<TypedBody<Vec<u8>>, BodyError> =
        TypedBody::from_request(&rqctx, Some(b"text/plain"), &one_chunk(b"[1,2]"));
    assert!(matches!(r.unwrap_err(), BodyError::Oversize { cap: 3 }));
}

#[test]
fn typed_body_from_a_driven_reader() {
    let rqctx = ctx(16, ApiEndpointBodyContentType::Json);
    let mut reader = BodyReader::new(rqctx.request_body_max_bytes);
    reader.on_data(&Bytes::from_static(b"[4,"));
    reader.on_data(&Bytes::from_static(b"5]"));
    reader.on_data_end();
    reader.on_trailers();
    let body: TypedBody<Vec<u8>> = TypedBody::from_reader(&rqctx, None, reader).unwrap();
    assert_eq!(body.into_inner(), vec![4, 5]);
}

#[test]
fn decoded_values_and_failures_are_wrapped() {
    let ok = typed_body_from_decoded(BodyFormat::Json, Ok::<u32, String>(7)).unwrap();
    assert_eq!(ok.into_inner(), 7);
    let err = typed_body_from_decoded(BodyFormat::UrlEncoded, Err::<u32, String>(String::from("bad")))
        .unwrap_err();
    assert!(matches!(
        &err,
        BodyError::Deserialize { format: BodyFormat::UrlEncoded, message } if message == "bad"
    ));
    assert_eq!(err.message(), "unable to parse URL-encoded body: bad");
}

#[test]
fn typed_metadata_describes_a_required_generated_body() {
    let m = TypedBody::<BTreeMap<String, i64>>::metadata(ApiEndpointBodyContentType::UrlEncoded);
    assert_eq!(m.extension_mode, ExtensionMode::Plain);
    assert_eq!(
        m.parameters,
        vec![ApiEndpointParameter {
            metadata: ApiEndpointParameterMetadata::Body(ApiEndpointBodyContentType::UrlEncoded),
            required: true,
            schema: ApiSchemaGenerator::Gen,
        }]
    );
}

#[test]
fn untyped_metadata_is_fixed() {
    for kind in [ApiEndpointBodyContentType::Json, ApiEndpointBodyContentType::Bytes] {
        let m = UntypedBody::metadata(kind);
        assert_eq!(m.extension_mode, ExtensionMode::Plain);
        assert_eq!(
            m.parameters,
            vec![ApiEndpointParameter::new_body(
                ApiEndpointBodyContentType::Bytes,
                true,
                ApiSchemaGenerator::Static {
                    instance_type: InstanceType::String,
                    format: SchemaFormat::Binary,
                },
            )]
        );
    }
}

#[test]
fn untyped_body_hands_out_the_bytes() {
    let rqctx = ctx(10, ApiEndpointBodyContentType::Json);
    let chunks = vec![Bytes::from_static(b"\x00\xff"), Bytes::from_static(b"abc")];
    let body = UntypedBody::from_request(&rqctx, &chunks).unwrap();
    assert_eq!(body.as_bytes(), b"\x00\xffabc");
}

#[test]
fn untyped_body_respects_the_cap() {
    let rqctx = ctx(10, ApiEndpointBodyContentType::Bytes);
    let ok = UntypedBody::from_request(&rqctx, &one_chunk(&[7u8; 10])).unwrap();
    assert_eq!(ok.as_bytes().len(), 10);
    let err = UntypedBody::from_request(&rqctx, &one_chunk(&[7u8; 11])).unwrap_err();
    assert!(matches!(err, BodyError::Oversize { cap: 10 }));
}

#[test]
fn untyped_body_as_str_returns_the_text() {
    let rqctx = ctx(64, ApiEndpointBodyContentType::Bytes);
    let text = "gr\u{fc}\u{df} dich, \u{4e16}\u{754c} \u{1f600}";
    let body = UntypedBody::from_request(&rqctx, &one_chunk(text.as_bytes())).unwrap();
    assert_eq!(body.as_str().unwrap(), text);
    assert_eq!(body.as_str().unwrap(), text);
    let empty = UntypedBody::from_request(&rqctx, &Vec::new()).unwrap();
    assert_eq!(empty.as_str().unwrap(), "");
}

#[test]
fn untyped_body_as_str_rejects_a_lone_ff() {
    let rqctx = ctx(64, ApiEndpointBodyContentType::Bytes);
    let body = UntypedBody::from_request(&rqctx, &one_chunk(&[0xFF])).unwrap();
    let err = body.as_str().unwrap_err();
    assert!(matches!(&err, BodyError::Utf8Decode { .. }));
    assert!(err.message().starts_with("failed to parse body as UTF-8 string: "));
    assert!(err.message().len() > "failed to parse body as UTF-8 string: ".len());
    assert_eq!(body.as_bytes(), &[0xFF]);
}

#[test]
fn untyped_body_from_a_failed_reader() {
    let mut reader = BodyReader::new(4);
    reader.on_error(String::from("reset"));
    let err = UntypedBody::from_reader(reader).unwrap_err();
    assert!(matches!(err, BodyError::Transport { message } if message == "reset"));
}

fn decode_params(pairs: Vec<(String, String)>) -> Result<BTreeMap<String, u32>, String> {
    let de: MapDeserializer<'_, _, ValueError> = MapDeserializer::new(pairs.into_iter());
    match BTreeMap::<String, u32>::deserialize(de) {
        Ok(v) => Ok(v),
        Err(e) => Err(e.to_string()),
    }
}

#[test]
fn path_parameter_of_the_wrong_type_is_a_client_error() {
    let decoded = decode_params(vec![(String::from("id"), String::from("not-a-uuid"))]);
    let message = decoded.clone().unwrap_err();
    assert!(!names_missing_field(&message));
    let err = http_extract_path_params(decoded).unwrap_err();
    assert!(matches!(&err, BodyError::PathParamType { message: m } if *m == message));
    assert_eq!(err.message(), format!("bad parameter in URL path: {}", message));
    assert!(err.message().contains("not-a-uuid"));
    assert_eq!(err.to_http_error().status_code, 400);
}

#[test]
fn decoded_path_parameters_are_handed_on() {
    let r = http_extract_path_params(Ok::<(u32, String), String>((7, String::from("x"))));
    assert_eq!(r.unwrap(), (7, String::from("x")));
}

#[test]
fn missing_field_messages_are_told_apart() {
    assert!(names_missing_field("missing field: id"));
    assert!(names_missing_field("missing field: "));
    assert!(!names_missing_field("missing field:"));
    assert!(!names_missing_field("missing field `id`"));
    assert!(!names_missing_field(""));
    assert!(!names_missing_field("invalid type: missing field: id"));
    assert!(!names_missing_field("m\u{ec}ssing field: id"));
}
