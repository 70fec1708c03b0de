//! Token accounting for language models: counting, truncating and
//! capacity reporting, together with the model-catalog abstraction.

use vstd::prelude::*;

use crate::providers::ollama::model::OllamaModel;
use crate::providers::open_ai::model::OpenAiModel;
use crate::tokenizer::{bpe_decoded, bpe_tokens};

verus! {

/// Which side of a token sequence truncation removes from.
#[derive(Clone, Copy, Debug, PartialEq, Eq, Structural)]
pub enum TruncationDirection {
    /// Remove tokens from the front, keeping the last `length` tokens.
    Start,
    /// Remove tokens from the end, keeping the first `length` tokens.
    End,
}

/// Failure of a token-accounting operation.
#[derive(Clone, Copy, Debug, PartialEq, Eq, Structural)]
pub enum TokenizerError {
    /// No tokenizer vocabulary could be resolved when the model was loaded.
    NoTokenizer,
    /// The encoder's pattern engine gave up on the input.
    EncodeFailure,
    /// The kept token sequence does not decode to valid text.
    DecodeFailure,
}

/// Failure of a capacity query.
#[derive(Clone, Copy, Debug, PartialEq, Eq, Structural)]
pub enum CapacityError {
    /// The model name is not in the fixed capacity table.
    UnknownModel,
}

impl TokenizerError {
    /// A human-readable description of the failure.
    pub fn message(&self) -> (r: String)
        ensures
            *self is NoTokenizer ==> r@ == "tokenizer vocabulary was not retrieved"@,
            *self is EncodeFailure ==> r@ == "tokenizer could not encode the text"@,
            *self is DecodeFailure ==> r@ == "kept tokens do not decode to valid text"@,
    {
        match self {
            TokenizerError::NoTokenizer => String::from_str("tokenizer vocabulary was not retrieved"),
            TokenizerError::EncodeFailure => String::from_str("tokenizer could not encode the text"),
            TokenizerError::DecodeFailure => String::from_str("kept tokens do not decode to valid text"),
        }
    }
}

/// The token sequence that truncation keeps: all of `tokens` when it is
/// within `length`, otherwise the first `length` tokens (`End`) or the
/// last `length` tokens (`Start`).
pub open spec fn truncated_tokens(
    tokens: Seq<u32>,
    length: int,
    direction: TruncationDirection,
) -> Seq<u32> {
    if tokens.len() <= length {
        tokens
    } else {
        match direction {
            TruncationDirection::End => tokens.take(length),
            TruncationDirection::Start => tokens.skip(tokens.len() - length),
        }
    }
}

/// Truncation keeps exactly `min(tokens.len(), length)` tokens: the result
/// never exceeds `length`, and is exactly `length` long whenever the input
/// had more than `length` tokens, in either direction.
pub proof fn lemma_truncated_len(tokens: Seq<u32>, length: int, direction: TruncationDirection)
    requires
        0 <= length,
    ensures
        truncated_tokens(tokens, length, direction).len() <= length
            || truncated_tokens(tokens, length, direction) == tokens,
        tokens.len() > length ==> truncated_tokens(tokens, length, direction).len() == length,
        truncated_tokens(tokens, length, direction).len() == if tokens.len() <= length {
            tokens.len() as int
        } else {
            length
        },
{
}

/// Truncating from the start removes tokens from the front: keeping
/// `tokens.len() - k` tokens from the start side leaves exactly the suffix
/// `tokens.skip(k)`, so the truncation decodes to the same text as decoding
/// that suffix directly, for every vocabulary.
pub proof fn lemma_truncate_start_drops_front(tokens: Seq<u32>, k: int, vocab: Seq<char>)
    requires
        0 <= k <= tokens.len(),
    ensures
        truncated_tokens(tokens, tokens.len() - k, TruncationDirection::Start) == tokens.skip(k),
        bpe_decoded(vocab, truncated_tokens(tokens, tokens.len() - k, TruncationDirection::Start))
            == bpe_decoded(vocab, tokens.skip(k)),
{
    assert(truncated_tokens(tokens, tokens.len() - k, TruncationDirection::Start) =~= tokens.skip(
        k,
    ));
}

/// Truncation is the identity whenever the token count is already within
/// bound, in both directions.
pub proof fn lemma_truncate_within_bound(
    tokens: Seq<u32>,
    length: int,
    direction: TruncationDirection,
)
    requires
        tokens.len() <= length,
    ensures
        truncated_tokens(tokens, length, direction) == tokens,
{
}

/// The catalog interface of one provider family's model variants: stable
/// on-wire names, display names, and a deterministic cycling order.
pub trait AiModel: Sized {
    /// The canonical on-wire name, used literally in requests.
    spec fn spec_full_name(&self) -> Seq<char>;

    /// The short display name.
    spec fn spec_short_name(&self) -> Seq<char>;

    /// The deterministic next variant within the same provider family.
    spec fn spec_cycle(&self) -> Self;

    fn full_name(&self) -> (r: &'static str)
        ensures
            r@ == self.spec_full_name(),
    ;

    fn short_name(&self) -> (r: &'static str)
        ensures
            r@ == self.spec_short_name(),
    ;

    fn cycle(&self) -> (r: Self)
        ensures
            r == self.spec_cycle(),
    ;
}

/// A selectable model variant of either provider family.
#[derive(Clone, Copy, Debug, PartialEq, Eq, Structural)]
pub enum AiModelVariant {
    OpenAI(OpenAiModel),
    Ollama(OllamaModel),
}

impl AiModel for AiModelVariant {
    open spec fn spec_full_name(&self) -> Seq<char> {
        match *self {
            AiModelVariant::OpenAI(model) => model.spec_full_name(),
            AiModelVariant::Ollama(model) => model.spec_full_name(),
        }
    }

    open spec fn spec_short_name(&self) -> Seq<char> {
        match *self {
            AiModelVariant::OpenAI(model) => model.spec_short_name(),
            AiModelVariant::Ollama(model) => model.spec_short_name(),
        }
    }

    open spec fn spec_cycle(&self) -> Self {
        match *self {
            AiModelVariant::OpenAI(model) => AiModelVariant::OpenAI(model.spec_cycle()),
            AiModelVariant::Ollama(model) => AiModelVariant::Ollama(model.spec_cycle()),
        }
    }

    fn full_name(&self) -> (r: &'static str)
        ensures
            r@ == self.spec_full_name(),
    {
        match self {
            AiModelVariant::OpenAI(model) => model.full_name(),
            AiModelVariant::Ollama(model) => model.full_name(),
        }
    }

    fn short_name(&self) -> (r: &'static str)
        ensures
            r@ == self.spec_short_name(),
    {
        match self {
            AiModelVariant::OpenAI(model) => model.short_name(),
            AiModelVariant::Ollama(model) => model.short_name(),
        }
    }

    fn cycle(&self) -> (r: Self)
        ensures
            r == self.spec_cycle(),
    {
        match self {
            AiModelVariant::OpenAI(model) => AiModelVariant::OpenAI(model.cycle()),
            AiModelVariant::Ollama(model) => AiModelVariant::Ollama(model.cycle()),
        }
    }
}

/// Cycling a variant never crosses provider families, has no fixed point,
/// and returns to the starting variant after exactly as many steps as its
/// own family's catalog holds: three for the cloud family, two for the
/// local family.
pub proof fn lemma_variant_cycle_permutes(m: AiModelVariant)
    ensures
        m.spec_cycle() != m,
        m is OpenAI <==> m.spec_cycle() is OpenAI,
        m is OpenAI ==> m.spec_cycle().spec_cycle().spec_cycle() == m
            && m.spec_cycle().spec_cycle() != m,
        m is Ollama ==> m.spec_cycle().spec_cycle() == m,
{
}

/// A loaded model's token-accounting interface: counting, truncating and
/// capacity reporting over one byte-pair-encoding vocabulary.
pub trait LanguageModel {
    /// The identifier the model was loaded under.
    spec fn spec_name(&self) -> Seq<char>;

    /// The vocabulary key of the resolved tokenizer, or `None` when no
    /// tokenizer could be resolved at load time.
    spec fn spec_vocab(&self) -> Option<Seq<char>>;

    /// The usable context window, or `None` when it cannot be reported.
    spec fn spec_capacity(&self) -> Option<usize>;

    fn name(&self) -> (r: String)
        ensures
            r@ == self.spec_name(),
    ;

    /// The number of tokens the model's tokenizer encodes `content` to;
    /// fails exactly when no tokenizer was resolved at load time, or when
    /// the encoder gives up on the input.
    fn count_tokens(&self, content: &str) -> (r: Result<usize, TokenizerError>)
        ensures
            match self.spec_vocab() {
                Some(v) => match bpe_tokens(v, content@) {
                    Some(ts) => r matches Ok(n) && n == ts.len(),
                    None => r matches Err(e) && e is EncodeFailure,
                },
                None => r matches Err(e) && e is NoTokenizer,
            },
    ;

    /// Encodes `content`, keeps at most `length` tokens as `direction`
    /// says, and decodes the kept tokens back to text. Fails exactly when
    /// no tokenizer was resolved, when the encoder gives up on the input,
    /// or when the kept tokens do not decode.
    fn truncate(&self, content: &str, length: usize, direction: TruncationDirection) -> (r: Result<
        String,
        TokenizerError,
    >)
        ensures
            match self.spec_vocab() {
                Some(v) => match bpe_tokens(v, content@) {
                    Some(ts) => match bpe_decoded(
                        v,
                        truncated_tokens(ts, length as int, direction),
                    ) {
                        Some(text) => r matches Ok(s) && s@ == text,
                        None => r matches Err(e) && e is DecodeFailure,
                    },
                    None => r matches Err(e) && e is EncodeFailure,
                },
                None => r matches Err(e) && e is NoTokenizer,
            },
    ;

    /// The model's usable context window; a soft bound.
    fn capacity(&self) -> (r: Result<usize, CapacityError>)
        ensures
            match self.spec_capacity() {
                Some(n) => r matches Ok(m) && m == n,
                None => r matches Err(e) && e is UnknownModel,
            },
    ;
}

/// Keeps at most `length` tokens of `tokens`: all of them when already
/// within bound, else the first `length` (`End`) or last `length` (`Start`).
pub fn truncate_token_vec(tokens: Vec<u32>, length: usize, direction: TruncationDirection) -> (r:
    Vec<u32>)
    ensures
        r@ == truncated_tokens(tokens@, length as int, direction),
{
    if tokens.len() <= length {
        tokens
    } else {
        match direction {
            TruncationDirection::End => {
                let mut kept: Vec<u32> = Vec::new();
                let mut i: usize = 0;
                while i < length
                    invariant
                        i <= length,
                        length < tokens@.len(),
                        kept@ == tokens@.take(i as int),
                    decreases length - i,
                {
                    kept.push(tokens[i]);
                    i += 1;
                    assert(kept@ =~= tokens@.take(i as int));
                }
                kept
            },
            TruncationDirection::Start => {
                let start = tokens.len() - length;
                let mut kept: Vec<u32> = Vec::new();
                let mut i: usize = start;
                while i < tokens.len()
                    invariant
                        start <= i <= tokens@.len(),
                        start == tokens@.len() - length,
                        length < tokens@.len(),
                        kept@ == tokens@.subrange(start as int, i as int),
                    decreases tokens@.len() - i,
                {
                    kept.push(tokens[i]);
                    i += 1;
                    assert(kept@ =~= tokens@.subrange(start as int, i as int));
                }
                assert(kept@ =~= tokens@.skip(tokens@.len() - length));
                kept
            },
        }
    }
}

} // verus!
