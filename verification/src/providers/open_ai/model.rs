//! The cloud provider's model variants and its token-accounting model.

use vstd::prelude::*;

use crate::models::{
    AiModel, CapacityError, LanguageModel, TokenizerError, TruncationDirection, truncate_token_vec,
    truncated_tokens,
};
use crate::tokenizer::{BpeTokenizer, bpe_decoded, bpe_tokens, context_size_of, context_window};

verus! {

/// The selectable cloud model variants.
#[derive(Clone, Copy, Debug, PartialEq, Eq, Structural)]
pub enum OpenAiModel {
    ThreePointFiveTurbo,
    Four,
    FourTurbo,
}

impl AiModel for OpenAiModel {
    open spec fn spec_full_name(&self) -> Seq<char> {
        match *self {
            OpenAiModel::ThreePointFiveTurbo => "gpt-3.5-turbo-0613"@,
            OpenAiModel::Four => "gpt-4-0613"@,
            OpenAiModel::FourTurbo => "gpt-4-1106-preview"@,
        }
    }

    open spec fn spec_short_name(&self) -> Seq<char> {
        match *self {
            OpenAiModel::ThreePointFiveTurbo => "gpt-3.5-turbo"@,
            OpenAiModel::Four => "gpt-4"@,
            OpenAiModel::FourTurbo => "gpt-4-turbo"@,
        }
    }

    open spec fn spec_cycle(&self) -> Self {
        match *self {
            OpenAiModel::ThreePointFiveTurbo => OpenAiModel::Four,
            OpenAiModel::Four => OpenAiModel::FourTurbo,
            OpenAiModel::FourTurbo => OpenAiModel::ThreePointFiveTurbo,
        }
    }

    fn full_name(&self) -> (r: &'static str)
        ensures
            r@ == self.spec_full_name(),
    {
        match *self {
            OpenAiModel::ThreePointFiveTurbo => "gpt-3.5-turbo-0613",
            OpenAiModel::Four => "gpt-4-0613",
            OpenAiModel::FourTurbo => "gpt-4-1106-preview",
        }
    }

    fn short_name(&self) -> (r: &'static str)
        ensures
            r@ == self.spec_short_name(),
    {
        match *self {
            OpenAiModel::ThreePointFiveTurbo => "gpt-3.5-turbo",
            OpenAiModel::Four => "gpt-4",
            OpenAiModel::FourTurbo => "gpt-4-turbo",
        }
    }

    fn cycle(&self) -> (r: Self)
        ensures
            r == self.spec_cycle(),
    {
        match *self {
            OpenAiModel::ThreePointFiveTurbo => OpenAiModel::Four,
            OpenAiModel::Four => OpenAiModel::FourTurbo,
            OpenAiModel::FourTurbo => OpenAiModel::ThreePointFiveTurbo,
        }
    }
}

/// Cycling the cloud variants is a fixed-point-free permutation that
/// returns to the starting variant after exactly three steps, the size of
/// the cloud catalog.
pub proof fn lemma_open_ai_cycle_permutes(m: OpenAiModel)
    ensures
        m.spec_cycle() != m,
        m.spec_cycle().spec_cycle() != m,
        m.spec_cycle().spec_cycle().spec_cycle() == m,
{
}

/// A cloud model loaded by name, with the tokenizer vocabulary resolved for
/// that name at load time.
#[derive(Clone)]
pub struct OpenAiLanguageModel {
    name: String,
    bpe: Option<BpeTokenizer>,
}

impl OpenAiLanguageModel {
    /// Loads a model under an arbitrary name, resolving the tokenizer
    /// vocabulary for that same name.
    pub fn load(model_name: &str) -> (r: OpenAiLanguageModel)
        ensures
            r.spec_name() == model_name@,
            r.spec_vocab() == Some(model_name@),
            r.spec_capacity() == context_size_of(model_name@),
    {
        OpenAiLanguageModel { name: String::from_str(model_name), bpe: Some(
            BpeTokenizer::load(model_name),
        ) }
    }
}

impl LanguageModel for OpenAiLanguageModel {
    closed spec fn spec_name(&self) -> Seq<char> {
        self.name@
    }

    closed spec fn spec_vocab(&self) -> Option<Seq<char>> {
        match self.bpe {
            Some(t) => Some(t.vocab_key()),
            None => None,
        }
    }

    closed spec fn spec_capacity(&self) -> Option<usize> {
        context_size_of(self.name@)
    }

    fn name(&self) -> (r: String)
        ensures
            r@ == self.spec_name(),
    {
        self.name.clone()
    }

    fn count_tokens(&self, content: &str) -> (r: Result<usize, TokenizerError>)
        ensures
            match self.spec_vocab() {
                Some(v) => match bpe_tokens(v, content@) {
                    Some(ts) => r matches Ok(n) && n == ts.len(),
                    None => r matches Err(e) && e is EncodeFailure,
                },
                None => r matches Err(e) && e is NoTokenizer,
            },
    {
        match &self.bpe {
            Some(t) => match t.encode(content) {
                Some(tokens) => Ok(tokens.len()),
                None => Err(TokenizerError::EncodeFailure),
            },
            None => Err(TokenizerError::NoTokenizer),
        }
    }

    fn truncate(&self, content: &str, length: usize, direction: TruncationDirection) -> (r: Result<
        String,
        TokenizerError,
    >)
        ensures
            match self.spec_vocab() {
                Some(v) => match bpe_tokens(v, content@) {
                    Some(ts) => match bpe_decoded(
                        v,
                        truncated_tokens(ts, length as int, direction),
                    ) {
                        Some(text) => r matches Ok(s) && s@ == text,
                        None => r matches Err(e) && e is DecodeFailure,
                    },
                    None => r matches Err(e) && e is EncodeFailure,
                },
                None => r matches Err(e) && e is NoTokenizer,
            },
    {
        match &self.bpe {
            Some(t) => match t.encode(content) {
                Some(tokens) => {
                    let kept = truncate_token_vec(tokens, length, direction);
                    match t.decode(&kept) {
                        Some(s) => Ok(s),
                        None => Err(TokenizerError::DecodeFailure),
                    }
                },
                None => Err(TokenizerError::EncodeFailure),
            },
            None => Err(TokenizerError::NoTokenizer),
        }
    }

    fn capacity(&self) -> (r: Result<usize, CapacityError>)
        ensures
            match self.spec_capacity() {
                Some(n) => r matches Ok(m) && m == n,
                None => r matches Err(e) && e is UnknownModel,
            },
    {
        match context_window(self.name.as_str()) {
            Some(n) => Ok(n),
            None => Err(CapacityError::UnknownModel),
        }
    }
}

} // verus!
