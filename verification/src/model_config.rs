//! Reference data describing the upstream models a request can target.

use vstd::prelude::*;
use vstd::string::StringExecFns;

verus! {

/// The vendor whose API serves a model.
#[derive(Debug, Clone, Copy, PartialEq, Eq, Hash, Structural)]
pub enum Provider {
    OpenAI,
    Anthropic,
    Google,
    XAI,
    Groq,
    DeepSeek,
    OpenRouter,
}

impl Provider {
    /// The lower-case tag under which the provider is written in settings
    /// and configuration.
    pub open spec fn tag(self) -> Seq<char> {
        match self {
            Provider::OpenAI => "openai"@,
            Provider::Anthropic => "anthropic"@,
            Provider::Google => "google"@,
            Provider::XAI => "xai"@,
            Provider::Groq => "groq"@,
            Provider::DeepSeek => "deepseek"@,
            Provider::OpenRouter => "openrouter"@,
        }
    }

    /// The provider's tag as text.
    pub fn as_str(&self) -> (text: &'static str)
        ensures
            text@ == self.tag(),
    {
        match self {
            Provider::OpenAI => "openai",
            Provider::Anthropic => "anthropic",
            Provider::Google => "google",
            Provider::XAI => "xai",
            Provider::Groq => "groq",
            Provider::DeepSeek => "deepseek",
            Provider::OpenRouter => "openrouter",
        }
    }
}

/// The company that trained a model.
#[derive(Debug, Clone, Copy, PartialEq, Eq, Hash, Structural)]
pub enum Company {
    OpenAI,
    Anthropic,
    Google,
    XAI,
    DeepSeek,
    Meta,
}

impl Company {
    /// The lower-case tag under which the company is written in settings
    /// and configuration.
    pub open spec fn tag(self) -> Seq<char> {
        match self {
            Company::OpenAI => "openai"@,
            Company::Anthropic => "anthropic"@,
            Company::Google => "google"@,
            Company::XAI => "xai"@,
            Company::DeepSeek => "deepseek"@,
            Company::Meta => "meta"@,
        }
    }

    /// The company's tag as text.
    pub fn as_str(&self) -> (text: &'static str)
        ensures
            text@ == self.tag(),
    {
        match self {
            Company::OpenAI => "openai",
            Company::Anthropic => "anthropic",
            Company::Google => "google",
            Company::XAI => "xai",
            Company::DeepSeek => "deepseek",
            Company::Meta => "meta",
        }
    }
}

/// What a model can do.
#[derive(Debug, Clone, Copy, PartialEq, Eq, Structural)]
pub struct Capabilities {
    pub text: bool,
    pub image_generation: bool,
    pub image_understanding: bool,
    pub web_search: bool,
    pub file_upload: bool,
    pub function_calling: bool,
}

impl Capabilities {
    /// No capability at all.
    pub open spec fn none() -> Capabilities {
        Capabilities {
            text: false,
            image_generation: false,
            image_understanding: false,
            web_search: false,
            file_upload: false,
            function_calling: false,
        }
    }
}

impl Default for Capabilities {
    /// A model is taken to be capable of nothing until its record says
    /// otherwise.
    fn default() -> (caps: Self)
        ensures
            caps == Capabilities::none(),
    {
        Capabilities {
            text: false,
            image_generation: false,
            image_understanding: false,
            web_search: false,
            file_upload: false,
            function_calling: false,
        }
    }
}

/// One record of the model list: which upstream model a request targets and
/// what that model offers.
#[derive(Debug, PartialEq)]
pub struct ModelConfig {
    pub name: String,
    pub provider: Provider,
    pub company: Company,
    pub max_tokens: usize,
    pub capabilities: Capabilities,
    pub description: String,
}

/// The mathematical value of a [`ModelConfig`].
pub struct ModelConfigView {
    pub name: Seq<char>,
    pub provider: Provider,
    pub company: Company,
    pub max_tokens: nat,
    pub capabilities: Capabilities,
    pub description: Seq<char>,
}

impl View for ModelConfig {
    type V = ModelConfigView;

    open spec fn view(&self) -> ModelConfigView {
        ModelConfigView {
            name: self.name@,
            provider: self.provider,
            company: self.company,
            max_tokens: self.max_tokens as nat,
            capabilities: self.capabilities,
            description: self.description@,
        }
    }
}

impl Clone for ModelConfig {
    fn clone(&self) -> (copy: Self)
        ensures
            copy == *self,
    {
        ModelConfig {
            name: self.name.clone(),
            provider: self.provider,
            company: self.company,
            max_tokens: self.max_tokens,
            capabilities: self.capabilities,
            description: self.description.clone(),
        }
    }
}

impl Default for ModelConfig {
    /// The model used when no list of models is at hand.
    fn default() -> (model: Self)
        ensures
            model@ == ModelConfig::fallback(),
    {
        ModelConfig {
            name: String::from_str("gpt-4o"),
            provider: Provider::OpenAI,
            company: Company::OpenAI,
            max_tokens: 128000,
            capabilities: Capabilities::default(),
            description: String::from_str("OpenAI's most advanced model"),
        }
    }
}

impl ModelConfig {
    /// The value of the model used when no list of models is at hand.
    pub open spec fn fallback() -> ModelConfigView {
        ModelConfigView {
            name: "gpt-4o"@,
            provider: Provider::OpenAI,
            company: Company::OpenAI,
            max_tokens: 128000,
            capabilities: Capabilities::none(),
            description: "OpenAI's most advanced model"@,
        }
    }

    /// Picks the model to start with: the last record of the list that was
    /// loaded, or the fallback where no list was read or the list is empty.
    /// `loaded` is the model list as it was read, or `None` where it could
    /// not be read.
    pub fn default_model(loaded: Option<Vec<ModelConfig>>) -> (model: ModelConfig)
        ensures
            match loaded {
                Some(models) if models@.len() > 0 => model == models@.last(),
                _ => model@ == ModelConfig::fallback(),
            },
    {
        match loaded {
            Some(mut models) => match models.pop() {
                Some(last) => last,
                None => ModelConfig::default(),
            },
            None => ModelConfig::default(),
        }
    }

    /// Whether the model draws images.
    pub fn is_dalle(&self) -> (yes: bool)
        ensures
            yes == self@.capabilities.image_generation,
    {
        self.capabilities.image_generation
    }
}

} // verus!
