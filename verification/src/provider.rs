//! The completion services a commit message can be asked from, and the
//! caller's configuration for one request.

use crate::text::{option_text, same_text};
use vstd::prelude::*;

verus! {

/// A completion service.
#[derive(Clone, Copy, Debug, PartialEq, Eq, Structural)]
pub enum Provider {
    Ollama,
    OpenAi,
    Gemini,
    Anthropic,
    Custom,
}

/// The provider that a configuration tag selects, if any.
pub open spec fn provider_of(tag: Seq<char>) -> Option<Provider> {
    if tag == "ollama"@ {
        Some(Provider::Ollama)
    } else if tag == "openai"@ {
        Some(Provider::OpenAi)
    } else if tag == "gemini"@ {
        Some(Provider::Gemini)
    } else if tag == "anthropic"@ {
        Some(Provider::Anthropic)
    } else if tag == "custom"@ {
        Some(Provider::Custom)
    } else {
        None
    }
}

impl Provider {
    /// Reads a configuration tag. Tags are lower case and matched exactly.
    pub fn from_tag(tag: &str) -> (r: Option<Provider>)
        ensures
            r == provider_of(tag@),
    {
        if same_text(tag, "ollama") {
            Some(Provider::Ollama)
        } else if same_text(tag, "openai") {
            Some(Provider::OpenAi)
        } else if same_text(tag, "gemini") {
            Some(Provider::Gemini)
        } else if same_text(tag, "anthropic") {
            Some(Provider::Anthropic)
        } else if same_text(tag, "custom") {
            Some(Provider::Custom)
        } else {
            None
        }
    }

    /// The name of the service in messages about its API.
    pub open spec fn spec_name(self) -> Seq<char> {
        match self {
            Provider::Ollama => "Ollama"@,
            Provider::OpenAi => "OpenAI"@,
            Provider::Gemini => "Gemini"@,
            Provider::Anthropic => "Anthropic"@,
            Provider::Custom => "Custom"@,
        }
    }

    /// The name of the service in messages about its API.
    pub fn name(self) -> (r: &'static str)
        ensures
            r@ == self.spec_name(),
    {
        match self {
            Provider::Ollama => "Ollama",
            Provider::OpenAi => "OpenAI",
            Provider::Gemini => "Gemini",
            Provider::Anthropic => "Anthropic",
            Provider::Custom => "Custom",
        }
    }

    /// What the service is called as the other end of a connection.
    pub open spec fn spec_peer(self) -> Seq<char> {
        match self {
            Provider::Custom => "Custom endpoint"@,
            _ => self.spec_name(),
        }
    }

    /// What the service is called as the other end of a connection.
    pub fn peer(self) -> (r: &'static str)
        ensures
            r@ == self.spec_peer(),
    {
        match self {
            Provider::Custom => "Custom endpoint",
            _ => self.name(),
        }
    }
}

/// What the caller supplies with a request for a commit message.
#[derive(Debug, PartialEq, Eq)]
pub struct AiConfig {
    /// The tag of the provider: `ollama`, `openai`, `gemini`, `anthropic` or
    /// `custom`.
    pub provider: String,
    pub api_key: Option<String>,
    pub model: String,
    /// The base URL of a `custom` provider.
    pub custom_api_url: Option<String>,
}

/// An [`AiConfig`] as plain sequences of characters.
pub struct AiConfigView {
    pub provider: Seq<char>,
    pub api_key: Option<Seq<char>>,
    pub model: Seq<char>,
    pub custom_api_url: Option<Seq<char>>,
}

impl View for AiConfig {
    type V = AiConfigView;

    open spec fn view(&self) -> AiConfigView {
        AiConfigView {
            provider: self.provider@,
            api_key: option_text(self.api_key),
            model: self.model@,
            custom_api_url: option_text(self.custom_api_url),
        }
    }
}

impl AiConfigView {
    /// The API key, empty where none was supplied.
    pub open spec fn key(self) -> Seq<char> {
        match self.api_key {
            Some(k) => k,
            None => Seq::empty(),
        }
    }
}

impl AiConfig {
    /// A configuration with the given parts.
    pub fn new(
        provider: String,
        api_key: Option<String>,
        model: String,
        custom_api_url: Option<String>,
    ) -> (r: AiConfig)
        ensures
            r.provider == provider,
            r.api_key == api_key,
            r.model == model,
            r.custom_api_url == custom_api_url,
    {
        AiConfig { provider, api_key, model, custom_api_url }
    }

    /// The API key, empty where none was supplied.
    pub fn key(&self) -> (r: String)
        ensures
            r@ == self@.key(),
    {
        match &self.api_key {
            Some(k) => k.clone(),
            None => String::new(),
        }
    }
}

} // verus!
