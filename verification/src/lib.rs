//! Type-driven content negotiation and schema derivation for HTTP payloads.

pub mod api;
pub mod keyed;
pub mod media_type;
pub mod openapi;
pub mod payload;
pub mod plugin;
pub mod response;
pub mod response_error;
pub mod schema;
pub mod text;
