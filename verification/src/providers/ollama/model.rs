//! The local provider's model variants and its token-accounting model.

use vstd::prelude::*;

use crate::models::{
    AiModel, CapacityError, LanguageModel, TokenizerError, TruncationDirection, truncate_token_vec,
    truncated_tokens,
};
use crate::tokenizer::{BpeTokenizer, bpe_decoded, bpe_tokens};

verus! {

/// The selectable local model variants.
#[derive(Clone, Copy, Debug, PartialEq, Eq, Structural)]
pub enum OllamaModel {
    CodeLlamaSevenBillion,
    CodeLlamaThirteenBillion,
}

impl AiModel for OllamaModel {
    open spec fn spec_full_name(&self) -> Seq<char> {
        match *self {
            OllamaModel::CodeLlamaSevenBillion => "codellama:7b"@,
            OllamaModel::CodeLlamaThirteenBillion => "codellama:13b"@,
        }
    }

    open spec fn spec_short_name(&self) -> Seq<char> {
        match *self {
            OllamaModel::CodeLlamaSevenBillion => "codellama-7"@,
            OllamaModel::CodeLlamaThirteenBillion => "codellama-13"@,
        }
    }

    open spec fn spec_cycle(&self) -> Self {
        match *self {
            OllamaModel::CodeLlamaSevenBillion => OllamaModel::CodeLlamaThirteenBillion,
            OllamaModel::CodeLlamaThirteenBillion => OllamaModel::CodeLlamaSevenBillion,
        }
    }

    fn full_name(&self) -> (r: &'static str)
        ensures
            r@ == self.spec_full_name(),
    {
        match *self {
            OllamaModel::CodeLlamaSevenBillion => "codellama:7b",
            OllamaModel::CodeLlamaThirteenBillion => "codellama:13b",
        }
    }

    fn short_name(&self) -> (r: &'static str)
        ensures
            r@ == self.spec_short_name(),
    {
        match *self {
            OllamaModel::CodeLlamaSevenBillion => "codellama-7",
            OllamaModel::CodeLlamaThirteenBillion => "codellama-13",
        }
    }

    fn cycle(&self) -> (r: Self)
        ensures
            r == self.spec_cycle(),
    {
        match *self {
            OllamaModel::CodeLlamaSevenBillion => OllamaModel::CodeLlamaThirteenBillion,
            OllamaModel::CodeLlamaThirteenBillion => OllamaModel::CodeLlamaSevenBillion,
        }
    }
}

/// Cycling the local variants is a fixed-point-free permutation that
/// returns to the starting variant after exactly two steps, the size of
/// the local catalog.
pub proof fn lemma_ollama_cycle_permutes(m: OllamaModel)
    ensures
        m.spec_cycle() != m,
        m.spec_cycle().spec_cycle() == m,
{
}

/// The vocabulary key the local provider borrows from the cloud provider:
/// the local models ship no native tokenizer, so their token accounting is
/// a documented approximation through this fixed cloud vocabulary.
pub const OLLAMA_VOCAB_KEY: &'static str = "gpt-3.5-turbo-0613";

/// The local provider's fixed, conservative context-window estimate:
/// 80% of an assumed 100,000-token ceiling, not a measured value.
pub const OLLAMA_CAPACITY: usize = 80000;

/// A local model loaded by name. The tokenizer vocabulary is always the
/// borrowed cloud vocabulary, regardless of the model name.
#[derive(Clone)]
pub struct OllamaLanguageModel {
    name: String,
    bpe: Option<BpeTokenizer>,
}

impl OllamaLanguageModel {
    /// Loads a model under an arbitrary name; the tokenizer is resolved for
    /// the fixed borrowed vocabulary key, never for the name itself.
    pub fn load(model_name: &str) -> (r: OllamaLanguageModel)
        ensures
            r.spec_name() == model_name@,
            r.spec_vocab() == Some(OLLAMA_VOCAB_KEY@),
            r.spec_capacity() == Some(OLLAMA_CAPACITY),
    {
        OllamaLanguageModel { name: String::from_str(model_name), bpe: Some(
            BpeTokenizer::load(OLLAMA_VOCAB_KEY),
        ) }
    }
}

impl LanguageModel for OllamaLanguageModel {
    closed spec fn spec_name(&self) -> Seq<char> {
        self.name@
    }

    closed spec fn spec_vocab(&self) -> Option<Seq<char>> {
        match self.bpe {
            Some(t) => Some(t.vocab_key()),
            None => None,
        }
    }

    closed spec fn spec_capacity(&self) -> Option<usize> {
        Some(OLLAMA_CAPACITY)
    }

    fn name(&self) -> (r: String)
        ensures
            r@ == self.spec_name(),
    {
        self.name.clone()
    }

    fn count_tokens(&self, content: &str) -> (r: Result<usize, TokenizerError>)
        ensures
            match self.spec_vocab() {
                Some(v) => match bpe_tokens(v, content@) {
                    Some(ts) => r matches Ok(n) && n == ts.len(),
                    None => r matches Err(e) && e is EncodeFailure,
                },
                None => r matches Err(e) && e is NoTokenizer,
            },
    {
        match &self.bpe {
            Some(t) => match t.encode(content) {
                Some(tokens) => Ok(tokens.len()),
                None => Err(TokenizerError::EncodeFailure),
            },
            None => Err(TokenizerError::NoTokenizer),
        }
    }

    fn truncate(&self, content: &str, length: usize, direction: TruncationDirection) -> (r: Result<
        String,
        TokenizerError,
    >)
        ensures
            match self.spec_vocab() {
                Some(v) => match bpe_tokens(v, content@) {
                    Some(ts) => match bpe_decoded(
                        v,
                        truncated_tokens(ts, length as int, direction),
                    ) {
                        Some(text) => r matches Ok(s) && s@ == text,
                        None => r matches Err(e) && e is DecodeFailure,
                    },
                    None => r matches Err(e) && e is EncodeFailure,
                },
                None => r matches Err(e) && e is NoTokenizer,
            },
    {
        match &self.bpe {
            Some(t) => match t.encode(content) {
                Some(tokens) => {
                    let kept = truncate_token_vec(tokens, length, direction);
                    match t.decode(&kept) {
                        Some(s) => Ok(s),
                        None => Err(TokenizerError::DecodeFailure),
                    }
                },
                None => Err(TokenizerError::EncodeFailure),
            },
            None => Err(TokenizerError::NoTokenizer),
        }
    }

    fn capacity(&self) -> (r: Result<usize, CapacityError>)
        ensures
            match self.spec_capacity() {
                Some(n) => r matches Ok(m) && m == n,
                None => r matches Err(e) && e is UnknownModel,
            },
    {
        Ok(OLLAMA_CAPACITY)
    }
}


} // verus!
