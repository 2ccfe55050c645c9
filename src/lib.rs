//! A protocol gateway core: translates Messages-style requests (typed content
//! blocks, tool use, event streaming) into Chat-Completions-style requests and
//! translates the replies back, including live stream translation.
pub mod anthropic_to_openai;
pub mod config;
pub mod json;
pub mod laws;
pub mod models;
pub mod openai_to_anthropic;
pub mod openrouter;
pub mod stream;
pub mod switch_model;
pub mod text;
