//! Language-model provider settings as they appear in the settings file.

use vstd::prelude::*;

verus! {

/// One model a provider offers, as named in the settings file.
#[derive(Debug, PartialEq, Eq, Clone)]
pub struct AvailableModel {
    pub name: String,
    pub display_name: Option<String>,
    pub max_tokens: u64,
}

/// Settings for the Ollama provider.
#[derive(Debug, PartialEq, Clone)]
pub struct OllamaSettingsContent {
    pub api_url: Option<String>,
    pub available_models: Option<Vec<AvailableModel>>,
}

/// Settings for the OpenAI provider.
#[derive(Debug, PartialEq, Clone)]
pub struct OpenAiSettingsContent {
    pub api_url: Option<String>,
    pub available_models: Option<Vec<AvailableModel>>,
}

/// Settings for an OpenAI-compatible provider, keyed by provider name.
#[derive(Debug, PartialEq, Clone)]
pub struct OpenAiCompatibleSettingsContent {
    pub api_url: String,
    pub available_models: Vec<AvailableModel>,
}

} // verus!
