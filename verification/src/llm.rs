//! LLM providers: configuration, request shaping and stream decoding.
pub mod types;
pub mod factory;
pub mod providers;
