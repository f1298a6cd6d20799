//! Commit-message generation from staged changes: prompt rendering, reply
//! cleaning, and the request/response decisions of the two text-generation
//! backends.

pub mod cli;
pub mod config;
pub mod error;
pub mod gemini;
pub mod git;
pub mod json;
pub mod ollama;
pub mod prompt;
pub mod sanitize;
pub mod summarizer;
pub mod text;
