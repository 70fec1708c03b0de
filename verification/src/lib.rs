//! Provider-agnostic streaming text-completion library: a token-aware
//! truncation layer over a byte-pair-encoding tokenizer, a model catalog
//! with deterministic cycling, the chat-completion wire protocol, and the
//! server-sent-event stream decoding state machine.

pub mod assistant_settings;
pub mod completion;
pub mod json;
pub mod models;
pub mod providers;
pub mod text;
pub mod tokenizer;
