//! What an extractor tells the API description about the parameter that it
//! reads.

use crate::content_type::ApiEndpointBodyContentType;
use vstd::prelude::*;

verus! {

/// How an endpoint extends the plain request and response scheme.
#[derive(Clone, Copy, Debug, PartialEq, Eq, Structural)]
pub enum ExtensionMode {
    Plain,
    Paginated,
    Websocket,
}

/// Where a parameter is read from.
#[derive(Clone, Copy, Debug, PartialEq, Eq, Structural)]
pub enum ApiEndpointParameterMetadata {
    /// The request body, of the given kind.
    Body(ApiEndpointBodyContentType),
}

/// The JSON type of a schema's instances.
#[derive(Clone, Copy, Debug, PartialEq, Eq, Structural)]
pub enum InstanceType {
    String,
}

/// The format that refines a schema's type.
#[derive(Clone, Copy, Debug, PartialEq, Eq, Structural)]
pub enum SchemaFormat {
    Binary,
}

/// How the schema of a parameter is obtained.
#[derive(Clone, Copy, Debug, PartialEq, Eq, Structural)]
pub enum ApiSchemaGenerator {
    /// The schema is generated from the body's type when the API is
    /// described, and not before.
    Gen,
    /// The schema is fixed.
    Static { instance_type: InstanceType, format: SchemaFormat },
}

/// One parameter of an endpoint.
#[derive(Clone, Copy, Debug, PartialEq, Eq, Structural)]
pub struct ApiEndpointParameter {
    pub metadata: ApiEndpointParameterMetadata,
    pub required: bool,
    pub schema: ApiSchemaGenerator,
}

impl ApiEndpointParameter {
    /// A body parameter.
    pub fn new_body(
        content_type: ApiEndpointBodyContentType,
        required: bool,
        schema: ApiSchemaGenerator,
    ) -> (p: ApiEndpointParameter)
        ensures
            p == (ApiEndpointParameter {
                metadata: ApiEndpointParameterMetadata::Body(content_type),
                required,
                schema,
            }),
    {
        ApiEndpointParameter {
            metadata: ApiEndpointParameterMetadata::Body(content_type),
            required,
            schema,
        }
    }
}

/// The parameters that an extractor reads.
#[derive(Debug)]
pub struct ExtractorMetadata {
    pub extension_mode: ExtensionMode,
    pub parameters: Vec<ApiEndpointParameter>,
}

} // verus!
