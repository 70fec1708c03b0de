use ai_completion::assistant_settings;
use ai_completion::assistant_settings::{AiModel as SettingsModel, AiModelTrait, AiProvider};
use ai_completion::completion;
use ai_completion::models::{AiModel, AiModelVariant};
use ai_completion::providers::ollama::completion as ollama_completion;
use ai_completion::providers::ollama::model::OllamaModel;
use ai_completion::providers::open_ai::model::OpenAiModel;

#[test]
fn role_cycle_returns_after_three_steps() {
    let mut r = completion::Role::User;
    r.cycle();
    assert_eq!(r, completion::Role::Assistant);
    r.cycle();
    assert_eq!(r, completion::Role::System);
    r.cycle();
    assert_eq!(r, completion::Role::User);
}

#[test]
fn wire_role_cycle_returns_after_three_steps() {
    let mut r = ollama_completion::Role::Assistant;
    r.cycle();
    assert_eq!(r, ollama_completion::Role::System);
    r.cycle();
    assert_eq!(r, ollama_completion::Role::User);
    r.cycle();
    assert_eq!(r, ollama_completion::Role::Assistant);
}

#[test]
fn role_display_names() {
    assert_eq!(completion::Role::User.display_name(), "User");
    assert_eq!(completion::Role::Assistant.display_name(), "Assistant");
    assert_eq!(completion::Role::System.display_name(), "System");
    assert_eq!(ollama_completion::Role::System.display_name(), "System");
}

#[test]
fn open_ai_model_names() {
    assert_eq!(OpenAiModel::ThreePointFiveTurbo.full_name(), "gpt-3.5-turbo-0613");
    assert_eq!(OpenAiModel::Four.full_name(), "gpt-4-0613");
    assert_eq!(OpenAiModel::FourTurbo.full_name(), "gpt-4-1106-preview");
    assert_eq!(OpenAiModel::ThreePointFiveTurbo.short_name(), "gpt-3.5-turbo");
    assert_eq!(OpenAiModel::Four.short_name(), "gpt-4");
    assert_eq!(OpenAiModel::FourTurbo.short_name(), "gpt-4-turbo");
}

#[test]
fn open_ai_cycle_visits_every_variant_once() {
    let start = OpenAiModel::ThreePointFiveTurbo;
    let one = start.cycle();
    let two = one.cycle();
    let three = two.cycle();
    assert_eq!(one, OpenAiModel::Four);
    assert_eq!(two, OpenAiModel::FourTurbo);
    assert_eq!(three, start);
    assert_ne!(one, start);
    assert_ne!(two, start);
}

#[test]
fn ollama_model_names() {
    assert_eq!(OllamaModel::CodeLlamaSevenBillion.full_name(), "codellama:7b");
    assert_eq!(OllamaModel::CodeLlamaThirteenBillion.full_name(), "codellama:13b");
    assert_eq!(OllamaModel::CodeLlamaSevenBillion.short_name(), "codellama-7");
    assert_eq!(OllamaModel::CodeLlamaThirteenBillion.short_name(), "codellama-13");
}

#[test]
fn ollama_cycle_swaps_the_two_variants() {
    let start = OllamaModel::CodeLlamaSevenBillion;
    let one = start.cycle();
    assert_eq!(one, OllamaModel::CodeLlamaThirteenBillion);
    assert_eq!(one.cycle(), start);
    assert_ne!(one, start);
}

#[test]
fn variant_cycle_stays_in_its_family() {
    let v = AiModelVariant::OpenAI(OpenAiModel::FourTurbo);
    assert_eq!(v.cycle(), AiModelVariant::OpenAI(OpenAiModel::ThreePointFiveTurbo));
    assert_eq!(v.full_name(), "gpt-4-1106-preview");
    let w = AiModelVariant::Ollama(OllamaModel::CodeLlamaSevenBillion);
    assert_eq!(w.cycle(), AiModelVariant::Ollama(OllamaModel::CodeLlamaThirteenBillion));
    assert_eq!(w.short_name(), "codellama-7");
}

#[test]
fn provider_cycle_swaps_providers() {
    let p = AiProvider::OpenAI;
    assert_eq!(p.cycle(), assistant_settings::AiProvider::Ollama);
    assert_eq!(p.cycle().cycle(), p);
}

#[test]
fn provider_names_and_urls() {
    assert_eq!(AiProvider::OpenAI.name(), "Open AI");
    assert_eq!(AiProvider::Ollama.name(), "Ollama");
    assert_eq!(AiProvider::OpenAI.api_url(), "https://api.openai.com/v1");
    assert_eq!(AiProvider::Ollama.api_url(), "http://localhost:11434/v1");
}

#[test]
fn default_model_matches_its_provider() {
    match AiProvider::OpenAI.default_model() {
        SettingsModel::OpenAI(m) => {
            assert_eq!(m, assistant_settings::OpenAiModel::ThreePointFiveTurbo)
        }
        SettingsModel::Ollama(_) => panic!("cloud provider must default to a cloud variant"),
    }
    match AiProvider::Ollama.default_model() {
        SettingsModel::Ollama(m) => {
            assert_eq!(m, assistant_settings::OllamaModel::CodeLlamaSevenBillion)
        }
        SettingsModel::OpenAI(_) => panic!("local provider must default to a local variant"),
    }
}

#[test]
fn assistant_catalog_names_and_cycles() {
    let m = assistant_settings::OpenAiModel::ThreePointFiveTurbo;
    assert_eq!(m.full_name(), "gpt-3.5-turbo-0613");
    assert_eq!(m.cycle(), assistant_settings::OpenAiModel::Four);
    assert_eq!(m.cycle().cycle().cycle(), m);
    let o = assistant_settings::OllamaModel::CodeLlamaSevenBillion;
    assert_eq!(o.full_name(), "codellama:7b");
    assert_eq!(o.short_name(), "codellama");
    assert_eq!(o.cycle(), o);
    let top = SettingsModel::OpenAI(m);
    assert_eq!(top.cycle(), SettingsModel::OpenAI(m.cycle()));
}
