//! Request-body extraction for an HTTP server: a bounded body reader,
//! content-type negotiation, typed and untyped body extractors, and
//! path-parameter extraction, with machine-checked contracts.

pub mod body;
pub mod buffer;
pub mod content_type;
pub mod decode;
pub mod error;
pub mod metadata;
pub mod negotiate;
pub mod path_params;
pub mod reader;
pub mod text;
