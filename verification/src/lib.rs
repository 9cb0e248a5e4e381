//! Wire dialects for model providers.
pub mod api;
pub mod api_laws;
pub mod chat_completions;
pub mod claude_code;
pub mod fields;
pub mod ids;
pub mod json;
pub mod kimi_chat;
pub mod llama_cpp;
pub mod model;
pub mod protocol;
pub mod read;
pub mod text;
pub mod thread_config;
