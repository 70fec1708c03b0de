//! Byte-pair-encoding tokenizer adapter.
//!
//! A [`BpeTokenizer`] is resolved once from a vocabulary key (a model name)
//! and then encodes text to token ids and decodes token ids back to text.
//! The tokenizer itself is supplied by the `tiktoken_rs` crate; its results
//! are named by the uninterpreted functions below, which depend on the
//! vocabulary key and the input alone.

use vstd::prelude::*;

verus! {

/// What the byte-pair encoder of the vocabulary resolved for `vocab`
/// produces for `content`: the token sequence, or `None` when the
/// encoder's pattern engine gives up on the input (a backtracking limit),
/// which depends on the vocabulary and the text alone.
pub uninterp spec fn bpe_tokens(vocab: Seq<char>, content: Seq<char>) -> Option<Seq<u32>>;

/// The text that the byte-pair decoder of the vocabulary resolved for
/// `vocab` produces for `tokens`, or `None` when the token sequence does
/// not decode to valid text.
pub uninterp spec fn bpe_decoded(vocab: Seq<char>, tokens: Seq<u32>) -> Option<Seq<char>>;

/// The usable context window that the model table reports for a model name,
/// or `None` for an unrecognized name.
pub uninterp spec fn context_size_of(model: Seq<char>) -> Option<usize>;

#[verifier::external_type_specification]
#[verifier::external_body]
pub struct ExCoreBPE(tiktoken_rs::CoreBPE);

/// Relies on the derived `Clone` of `tiktoken_rs::CoreBPE`: it clones every
/// field (the encoder and decoder tables and the compiled patterns), so the
/// clone is the same tokenizer value.
pub assume_specification[ <tiktoken_rs::CoreBPE as core::clone::Clone>::clone ](
    bpe: &tiktoken_rs::CoreBPE,
) -> (r: tiktoken_rs::CoreBPE)
    ensures
        r == *bpe,
;

/// A byte-pair-encoding tokenizer together with the vocabulary key it was
/// resolved from. The pairing of the two fields is established by [`Self::load`]
/// and never changed afterwards.
#[derive(Clone)]
pub struct BpeTokenizer {
    vocab: String,
    bpe: tiktoken_rs::CoreBPE,
}

impl BpeTokenizer {
    /// The vocabulary key this tokenizer was resolved from.
    pub closed spec fn vocab_key(&self) -> Seq<char> {
        self.vocab@
    }

    /// Relies on `tiktoken_rs::bpe_for_model` to resolve the tokenizer for a
    /// model name, falling back to `tiktoken_rs::cl100k_base` for names the
    /// table does not know. Both are deterministic in the name alone, and
    /// the fallback cannot fail: its vocabulary is compiled into the crate
    /// and parsed the same way every time, so loading always yields the
    /// tokenizer of the key.
    #[verifier::external_body]
    pub fn load(vocab_key: &str) -> (r: BpeTokenizer)
        ensures
            r.vocab_key() == vocab_key@,
    {
        let bpe = match tiktoken_rs::bpe_for_model(vocab_key) {
            Ok(b) => b.clone(),
            Err(_) => tiktoken_rs::cl100k_base().unwrap(),
        };
        BpeTokenizer { vocab: vocab_key.to_owned(), bpe }
    }

    /// Relies on `tiktoken_rs::CoreBPE::encode` with every special token of
    /// the vocabulary allowed (the set `CoreBPE::special_tokens` reports):
    /// the token ids depend on the vocabulary and the text alone, and so
    /// does its one failure, the pattern engine hitting its backtracking
    /// limit on the main pattern. The special-token scan itself cannot
    /// fail: that pattern is a plain alternation of literals, which the
    /// engine runs without backtracking.
    #[verifier::external_body]
    pub fn encode(&self, content: &str) -> (r: Option<Vec<u32>>)
        ensures
            r matches Some(ts) ==> bpe_tokens(self.vocab_key(), content@) == Some(ts@),
            r is None ==> bpe_tokens(self.vocab_key(), content@) is None,
    {
        let allowed = self.bpe.special_tokens();
        match self.bpe.encode(content, &allowed) {
            Ok((tokens, _)) => Some(tokens),
            Err(_) => None,
        }
    }

    /// Relies on `tiktoken_rs::CoreBPE::decode`: the result depends on the
    /// vocabulary and the token ids alone, and fails exactly when a token id
    /// is unknown or the decoded bytes are not valid UTF-8.
    #[verifier::external_body]
    pub fn decode(&self, tokens: &Vec<u32>) -> (r: Option<String>)
        ensures
            r matches Some(s) ==> bpe_decoded(self.vocab_key(), tokens@) == Some(s@),
            r is None ==> bpe_decoded(self.vocab_key(), tokens@) is None,
    {
        self.bpe.decode(tokens.as_slice()).ok()
    }
}

/// Relies on `tiktoken_rs::model::get_context_size`: a pure lookup from the
/// model name to its context window, `None` for unrecognized names. The three
/// catalog names below are matched by the lookup's `gpt-3.5-turbo`, `gpt-4`
/// and `gpt-4-1106` prefix rules.
#[verifier::external_body]
pub fn context_window(model: &str) -> (r: Option<usize>)
    ensures
        r == context_size_of(model@),
        model@ == "gpt-3.5-turbo-0613"@ ==> r == Some(16385usize),
        model@ == "gpt-4-0613"@ ==> r == Some(8192usize),
        model@ == "gpt-4-1106-preview"@ ==> r == Some(128000usize),
{
    tiktoken_rs::model::get_context_size(model)
}

} // verus!
