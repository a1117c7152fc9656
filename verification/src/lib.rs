//! Typed decoding of command-interaction payloads.
//!
//! The crate turns a loosely structured JSON payload describing a
//! user-invoked application command into a fully typed, internally
//! consistent `Interaction` record.  The pipeline has three stages:
//! a normalization pass that propagates the guild identifier into
//! nested objects, a field-by-field decoder, and a resolver that
//! turns flat option values into typed, variant-tagged values backed
//! by the payload's table of referenced objects.

pub mod catalog;
pub mod decode;
pub mod error;
pub mod ids;
pub mod json;
pub mod laws;
pub mod model;
pub mod normalize;
pub mod store;

pub use error::DecodeError;
pub use json::JsonValue;
pub use model::Interaction;
pub use normalize::normalize_payload;
