use ai_completion::models::{LanguageModel, TruncationDirection};
use ai_completion::providers::ollama::model::OllamaLanguageModel;
use ai_completion::providers::open_ai::model::OpenAiLanguageModel;
use ai_completion::tokenizer::BpeTokenizer;

#[test]
fn model_keeps_its_load_name() {
    let m = OpenAiLanguageModel::load("gpt-3.5-turbo-0613");
    assert_eq!(m.name(), "gpt-3.5-turbo-0613");
    let o = OllamaLanguageModel::load("codellama:7b");
    assert_eq!(o.name(), "codellama:7b");
}

#[test]
fn count_tokens_counts_bpe_tokens() {
    let m = OpenAiLanguageModel::load("gpt-3.5-turbo-0613");
    assert_eq!(m.count_tokens("").unwrap(), 0);
    // "hello world" is two cl100k tokens, not eleven characters
    assert_eq!(m.count_tokens("hello world").unwrap(), 2);
}

#[test]
fn truncate_within_bound_round_trips() {
    let m = OpenAiLanguageModel::load("gpt-3.5-turbo-0613");
    let content = "one two three four five";
    let n = m.count_tokens(content).unwrap();
    assert_eq!(m.truncate(content, n, TruncationDirection::End).unwrap(), content);
    assert_eq!(m.truncate(content, n, TruncationDirection::Start).unwrap(), content);
    assert_eq!(m.truncate(content, n + 10, TruncationDirection::End).unwrap(), content);
    assert_eq!(m.truncate(content, n + 10, TruncationDirection::Start).unwrap(), content);
}

#[test]
fn truncate_end_keeps_at_most_length_tokens() {
    let m = OpenAiLanguageModel::load("gpt-3.5-turbo-0613");
    let content = "alpha beta gamma delta epsilon zeta eta theta";
    let n = m.count_tokens(content).unwrap();
    assert!(n > 3);
    let kept = m.truncate(content, 3, TruncationDirection::End).unwrap();
    let recount = m.count_tokens(&kept).unwrap();
    assert!(recount <= 3);
    assert_eq!(recount, 3);
}

#[test]
fn truncate_start_drops_tokens_from_the_front() {
    let t = BpeTokenizer::load("gpt-3.5-turbo-0613");
    let content = "one two three four five six";
    let tokens = t.encode(content).unwrap();
    assert!(tokens.len() > 2);
    let tail: Vec<u32> = tokens[2..].to_vec();
    let expected = t.decode(&tail).unwrap();

    let m = OpenAiLanguageModel::load("gpt-3.5-turbo-0613");
    let kept = m
        .truncate(content, tokens.len() - 2, TruncationDirection::Start)
        .unwrap();
    assert_eq!(kept, expected);
}

#[test]
fn ollama_borrows_the_cloud_vocabulary() {
    let o = OllamaLanguageModel::load("codellama:7b");
    let m = OpenAiLanguageModel::load("gpt-3.5-turbo-0613");
    let content = "some text to count";
    assert_eq!(o.count_tokens(content).unwrap(), m.count_tokens(content).unwrap());
}

#[test]
fn capacities_from_the_model_table() {
    assert_eq!(OpenAiLanguageModel::load("gpt-3.5-turbo-0613").capacity().unwrap(), 16385);
    assert_eq!(OpenAiLanguageModel::load("gpt-4-0613").capacity().unwrap(), 8192);
    assert_eq!(OpenAiLanguageModel::load("gpt-4-1106-preview").capacity().unwrap(), 128000);
}

#[test]
fn unknown_model_has_no_capacity() {
    let m = OpenAiLanguageModel::load("no-such-model-name");
    assert!(m.capacity().is_err());
}

#[test]
fn ollama_capacity_is_the_fixed_estimate() {
    let o = OllamaLanguageModel::load("codellama:7b");
    assert_eq!(o.capacity().unwrap(), 80000);
}

#[test]
fn tokenizer_decode_rejects_unknown_token_ids() {
    let t = BpeTokenizer::load("gpt-3.5-turbo-0613");
    let bogus: Vec<u32> = vec![u32::MAX - 1];
    assert!(t.decode(&bogus).is_none());
}
