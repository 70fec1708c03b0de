//! The cloud API provider family.

pub mod model;

pub use model::OpenAiLanguageModel;

use vstd::prelude::*;

verus! {

/// Default base URL configured for the cloud provider.
pub const OPEN_AI_API_URL: &'static str = "http://localhost:11434/v1";

} // verus!
