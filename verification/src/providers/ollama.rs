//! The locally-hosted model server provider family.

pub mod completion;
pub mod model;

pub use model::OllamaLanguageModel;

use vstd::prelude::*;

verus! {

/// Default base URL of the local model server.
pub const OLLAMA_API_URL: &'static str = "http://localhost:11434/v1";

} // verus!
