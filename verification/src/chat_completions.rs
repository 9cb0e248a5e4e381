//! Provider-neutral Chat Completions: the request grammar, the encoder of a
//! conversation and the decoder of a streamed response.
pub mod body;
pub mod body_laws;
pub mod chunk;
pub mod chunk_laws;
pub mod decoding_laws;
pub mod dialect;
pub mod encoder;
pub mod encoding_laws;
pub mod error_laws;
pub mod laws;
pub mod stream;
pub mod types;
