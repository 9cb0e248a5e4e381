//! Direct requests to a llama.cpp endpoint.
pub mod catalog;
pub mod laws;
pub mod request;
pub mod runtime;
