//! Payload envelopes: carriers that say how a value travels.

pub mod form;
pub mod json;
