//! Provider selection for the assistant: which provider family is active,
//! its default model variant and its base URL. Switching provider and
//! switching model are coupled: the default variant always belongs to the
//! selected provider family.

use vstd::prelude::*;

verus! {

/// The catalog interface of the assistant's selectable models.
pub trait AiModelTrait: Sized {
    /// The canonical on-wire name, used literally in requests.
    spec fn spec_full_name(&self) -> Seq<char>;

    /// The short display name.
    spec fn spec_short_name(&self) -> Seq<char>;

    /// The deterministic next variant within the same provider family.
    spec fn spec_cycle(&self) -> Self;

    fn full_name(&self) -> (r: &'static str)
        ensures
            r@ == self.spec_full_name(),
    ;

    fn short_name(&self) -> (r: &'static str)
        ensures
            r@ == self.spec_short_name(),
    ;

    fn cycle(&self) -> (r: Self)
        ensures
            r == self.spec_cycle(),
    ;
}

/// The selectable provider families.
#[derive(Clone, Copy, Debug, PartialEq, Eq, Structural)]
pub enum AiProvider {
    OpenAI,
    Ollama,
}

/// The cloud model variants selectable in the assistant.
#[derive(Clone, Copy, Debug, PartialEq, Eq, Structural)]
pub enum OpenAiModel {
    ThreePointFiveTurbo,
    Four,
    FourTurbo,
}

/// The local model variants selectable in the assistant.
#[derive(Clone, Copy, Debug, PartialEq, Eq, Structural)]
pub enum OllamaModel {
    CodeLlamaSevenBillion,
}

/// A selectable model variant of either provider family.
#[derive(Clone, Copy, Debug, PartialEq, Eq, Structural)]
pub enum AiModel {
    OpenAI(OpenAiModel),
    Ollama(OllamaModel),
}

impl AiModel {
    /// The provider family a variant belongs to.
    pub open spec fn spec_provider(&self) -> AiProvider {
        match *self {
            AiModel::OpenAI(_) => AiProvider::OpenAI,
            AiModel::Ollama(_) => AiProvider::Ollama,
        }
    }
}

impl AiProvider {
    /// The other provider family.
    pub open spec fn spec_cycle(&self) -> AiProvider {
        match *self {
            AiProvider::OpenAI => AiProvider::Ollama,
            AiProvider::Ollama => AiProvider::OpenAI,
        }
    }

    /// The display name of the provider family.
    pub open spec fn spec_name(&self) -> Seq<char> {
        match *self {
            AiProvider::OpenAI => "Open AI"@,
            AiProvider::Ollama => "Ollama"@,
        }
    }

    /// The default model variant of the provider family; always a variant
    /// of that same family.
    pub open spec fn spec_default_model(&self) -> AiModel {
        match *self {
            AiProvider::OpenAI => AiModel::OpenAI(OpenAiModel::ThreePointFiveTurbo),
            AiProvider::Ollama => AiModel::Ollama(OllamaModel::CodeLlamaSevenBillion),
        }
    }

    /// The base URL of the provider family.
    pub open spec fn spec_api_url(&self) -> Seq<char> {
        match *self {
            AiProvider::OpenAI => "https://api.openai.com/v1"@,
            AiProvider::Ollama => "http://localhost:11434/v1"@,
        }
    }

    pub fn cycle(&self) -> (r: Self)
        ensures
            r == self.spec_cycle(),
    {
        match *self {
            AiProvider::OpenAI => AiProvider::Ollama,
            AiProvider::Ollama => AiProvider::OpenAI,
        }
    }

    pub fn name(&self) -> (r: &'static str)
        ensures
            r@ == self.spec_name(),
    {
        match *self {
            AiProvider::OpenAI => "Open AI",
            AiProvider::Ollama => "Ollama",
        }
    }

    pub fn default_model(&self) -> (r: AiModel)
        ensures
            r == self.spec_default_model(),
            r.spec_provider() == *self,
    {
        match *self {
            AiProvider::OpenAI => AiModel::OpenAI(OpenAiModel::ThreePointFiveTurbo),
            AiProvider::Ollama => AiModel::Ollama(OllamaModel::CodeLlamaSevenBillion),
        }
    }

    pub fn api_url(&self) -> (r: &'static str)
        ensures
            r@ == self.spec_api_url(),
    {
        match *self {
            AiProvider::OpenAI => "https://api.openai.com/v1",
            AiProvider::Ollama => "http://localhost:11434/v1",
        }
    }
}

/// Cycling the provider selection is a fixed-point-free permutation that
/// returns to the starting provider after exactly two steps, the size of
/// the provider set.
pub proof fn lemma_provider_cycle_permutes(p: AiProvider)
    ensures
        p.spec_cycle() != p,
        p.spec_cycle().spec_cycle() == p,
{
}

impl AiModelTrait for OpenAiModel {
    open spec fn spec_full_name(&self) -> Seq<char> {
        match *self {
            OpenAiModel::ThreePointFiveTurbo => "gpt-3.5-turbo-0613"@,
            OpenAiModel::Four => "gpt-4-0613"@,
            OpenAiModel::FourTurbo => "gpt-4-1106-preview"@,
        }
    }

    open spec fn spec_short_name(&self) -> Seq<char> {
        match *self {
            OpenAiModel::ThreePointFiveTurbo => "gpt-3.5-turbo"@,
            OpenAiModel::Four => "gpt-4"@,
            OpenAiModel::FourTurbo => "gpt-4-turbo"@,
        }
    }

    open spec fn spec_cycle(&self) -> Self {
        match *self {
            OpenAiModel::ThreePointFiveTurbo => OpenAiModel::Four,
            OpenAiModel::Four => OpenAiModel::FourTurbo,
            OpenAiModel::FourTurbo => OpenAiModel::ThreePointFiveTurbo,
        }
    }

    fn full_name(&self) -> (r: &'static str)
        ensures
            r@ == self.spec_full_name(),
    {
        match *self {
            OpenAiModel::ThreePointFiveTurbo => "gpt-3.5-turbo-0613",
            OpenAiModel::Four => "gpt-4-0613",
            OpenAiModel::FourTurbo => "gpt-4-1106-preview",
        }
    }

    fn short_name(&self) -> (r: &'static str)
        ensures
            r@ == self.spec_short_name(),
    {
        match *self {
            OpenAiModel::ThreePointFiveTurbo => "gpt-3.5-turbo",
            OpenAiModel::Four => "gpt-4",
            OpenAiModel::FourTurbo => "gpt-4-turbo",
        }
    }

    fn cycle(&self) -> (r: Self)
        ensures
            r == self.spec_cycle(),
    {
        match *self {
            OpenAiModel::ThreePointFiveTurbo => OpenAiModel::Four,
            OpenAiModel::Four => OpenAiModel::FourTurbo,
            OpenAiModel::FourTurbo => OpenAiModel::ThreePointFiveTurbo,
        }
    }
}

impl AiModelTrait for OllamaModel {
    open spec fn spec_full_name(&self) -> Seq<char> {
        match *self {
            OllamaModel::CodeLlamaSevenBillion => "codellama:7b"@,
        }
    }

    open spec fn spec_short_name(&self) -> Seq<char> {
        match *self {
            OllamaModel::CodeLlamaSevenBillion => "codellama"@,
        }
    }

    open spec fn spec_cycle(&self) -> Self {
        match *self {
            OllamaModel::CodeLlamaSevenBillion => OllamaModel::CodeLlamaSevenBillion,
        }
    }

    fn full_name(&self) -> (r: &'static str)
        ensures
            r@ == self.spec_full_name(),
    {
        match *self {
            OllamaModel::CodeLlamaSevenBillion => "codellama:7b",
        }
    }

    fn short_name(&self) -> (r: &'static str)
        ensures
            r@ == self.spec_short_name(),
    {
        match *self {
            OllamaModel::CodeLlamaSevenBillion => "codellama",
        }
    }

    fn cycle(&self) -> (r: Self)
        ensures
            r == self.spec_cycle(),
    {
        match *self {
            OllamaModel::CodeLlamaSevenBillion => OllamaModel::CodeLlamaSevenBillion,
        }
    }
}

impl AiModelTrait for AiModel {
    open spec fn spec_full_name(&self) -> Seq<char> {
        match *self {
            AiModel::OpenAI(model) => model.spec_full_name(),
            AiModel::Ollama(model) => model.spec_full_name(),
        }
    }

    open spec fn spec_short_name(&self) -> Seq<char> {
        match *self {
            AiModel::OpenAI(model) => model.spec_short_name(),
            AiModel::Ollama(model) => model.spec_short_name(),
        }
    }

    open spec fn spec_cycle(&self) -> Self {
        match *self {
            AiModel::OpenAI(model) => AiModel::OpenAI(model.spec_cycle()),
            AiModel::Ollama(model) => AiModel::Ollama(model.spec_cycle()),
        }
    }

    fn full_name(&self) -> (r: &'static str)
        ensures
            r@ == self.spec_full_name(),
    {
        match self {
            AiModel::OpenAI(model) => model.full_name(),
            AiModel::Ollama(model) => model.full_name(),
        }
    }

    fn short_name(&self) -> (r: &'static str)
        ensures
            r@ == self.spec_short_name(),
    {
        match self {
            AiModel::OpenAI(model) => model.short_name(),
            AiModel::Ollama(model) => model.short_name(),
        }
    }

    fn cycle(&self) -> (r: Self)
        ensures
            r == self.spec_cycle(),
    {
        match self {
            AiModel::OpenAI(model) => AiModel::OpenAI(model.cycle()),
            AiModel::Ollama(model) => AiModel::Ollama(model.cycle()),
        }
    }
}

/// Cycling an assistant model variant never crosses provider families and
/// returns to the starting variant after exactly as many steps as its own
/// family's catalog holds: three for the cloud family, one for the local
/// family. The local family has a single variant, so its one-step cycle is
/// the identity; only the multi-variant cloud family is fixed-point free.
pub proof fn lemma_assistant_model_cycle_permutes(m: AiModel)
    ensures
        m.spec_cycle().spec_provider() == m.spec_provider(),
        m is OpenAI ==> m.spec_cycle() != m && m.spec_cycle().spec_cycle() != m
            && m.spec_cycle().spec_cycle().spec_cycle() == m,
        m is Ollama ==> m.spec_cycle() == m,
{
}

/// Where the assistant panel is docked.
#[derive(Clone, Copy, Debug, PartialEq, Eq, Structural)]
pub enum AssistantDockPosition {
    Left,
    Right,
    Bottom,
}

} // verus!
