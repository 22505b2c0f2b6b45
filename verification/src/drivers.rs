//! LLM provider drivers.

pub mod openai_codex;
