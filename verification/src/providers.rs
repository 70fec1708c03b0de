//! Completion-provider families: the cloud API and the local model server.

pub mod ollama;
pub mod open_ai;
