//! Native request and response adapters for the coding client of Anthropic.
pub mod body;
pub mod body_laws;
pub mod decoding_laws;
pub mod encoder;
pub mod encoding_laws;
pub mod error_laws;
pub mod history;
pub mod history_content;
pub mod history_laws;
pub mod identity;
pub mod laws;
pub mod names;
pub mod opus_compatibility;
pub mod policy;
pub mod replay;
pub mod replay_laws;
pub mod request_laws;
pub mod response_laws;
pub mod sonnet_compatibility;
pub mod stream;
pub mod stream_laws;
pub mod transport;
pub mod types;
pub mod wire;
pub mod wire_laws;
