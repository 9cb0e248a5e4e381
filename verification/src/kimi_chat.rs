//! Native Kimi Chat Completions wire types and codecs.
//!
//! This module deliberately starts after canonical history and tool projection.
//! Routing and projection can therefore be connected without teaching this wire
//! codec about model slugs, tool runtimes, or provider-specific history.
pub mod client;
pub mod decoding_laws;
pub mod error_laws;
pub mod laws;
pub mod request;
pub mod request_laws;
pub mod response_laws;
pub mod schema;
pub mod schema_laws;
pub mod stream;
pub mod stream_laws;
pub mod stream_types;
pub mod wire_laws;
