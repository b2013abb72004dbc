//! The configuration: which provider is active, and the settings of the
//! providers that were set up.

pub mod migration;

use crate::text::{is_blank, chars_of, str_eq, trimmed};
use vstd::prelude::*;

verus! {

/// The settings of the Gemini provider.
#[derive(Debug, Clone, PartialEq, Eq)]
pub struct GeminiConfig {
    pub api_key: String,
    pub model: String,
}

/// The settings of the Ollama provider.
#[derive(Debug, Clone, PartialEq, Eq)]
pub struct OllamaConfig {
    pub base_url: String,
    pub model: String,
}

/// The settings of a provider with OpenAI's interface.
#[derive(Debug, Clone, PartialEq, Eq)]
pub struct OpenAIConfig {
    pub base_url: String,
    pub api_key: Option<String>,
    pub model: String,
}

/// The settings of every provider that was set up.
#[derive(Debug, Clone, PartialEq, Eq)]
pub struct MultiProviderConfig {
    pub gemini: Option<GeminiConfig>,
    pub ollama: Option<OllamaConfig>,
    pub openai: Option<OpenAIConfig>,
}

/// The settings of one provider.
#[derive(Debug, Clone, PartialEq, Eq)]
pub enum ProviderSpecificConfig {
    Gemini { gemini: GeminiConfig },
    Ollama { ollama: OllamaConfig },
    OpenAI { openai: OpenAIConfig },
}

/// A provider: its kind and its settings.
#[derive(Debug, Clone, PartialEq, Eq)]
pub struct ProviderConfig {
    pub provider_type: String,
    pub config: ProviderSpecificConfig,
}

/// The configuration.
#[derive(Debug, Clone, PartialEq, Eq)]
pub struct Config {
    pub active_provider: String,
    pub providers: MultiProviderConfig,
}

/// The model of the Gemini settings.
pub struct GeminiView {
    pub api_key: Seq<char>,
    pub model: Seq<char>,
}

/// The model of the Ollama settings.
pub struct OllamaView {
    pub base_url: Seq<char>,
    pub model: Seq<char>,
}

/// The model of the OpenAI settings.
pub struct OpenAIView {
    pub base_url: Seq<char>,
    pub api_key: Option<Seq<char>>,
    pub model: Seq<char>,
}

/// The model of the settings of one provider.
pub enum SettingsView {
    Gemini(GeminiView),
    Ollama(OllamaView),
    OpenAI(OpenAIView),
}

/// The model of a provider.
pub struct ProviderView {
    pub provider_type: Seq<char>,
    pub settings: SettingsView,
}

/// The model of the settings of all providers.
pub struct ProvidersView {
    pub gemini: Option<GeminiView>,
    pub ollama: Option<OllamaView>,
    pub openai: Option<OpenAIView>,
}

/// The model of the configuration.
pub struct ConfigView {
    pub active_provider: Seq<char>,
    pub providers: ProvidersView,
}

impl View for GeminiConfig {
    type V = GeminiView;

    open spec fn view(&self) -> GeminiView {
        GeminiView { api_key: self.api_key@, model: self.model@ }
    }
}

impl View for OllamaConfig {
    type V = OllamaView;

    open spec fn view(&self) -> OllamaView {
        OllamaView { base_url: self.base_url@, model: self.model@ }
    }
}

impl View for OpenAIConfig {
    type V = OpenAIView;

    open spec fn view(&self) -> OpenAIView {
        OpenAIView {
            base_url: self.base_url@,
            api_key: match self.api_key {
                Some(key) => Some(key@),
                None => None,
            },
            model: self.model@,
        }
    }
}

impl View for ProviderSpecificConfig {
    type V = SettingsView;

    open spec fn view(&self) -> SettingsView {
        match self {
            ProviderSpecificConfig::Gemini { gemini } => SettingsView::Gemini(gemini@),
            ProviderSpecificConfig::Ollama { ollama } => SettingsView::Ollama(ollama@),
            ProviderSpecificConfig::OpenAI { openai } => SettingsView::OpenAI(openai@),
        }
    }
}

impl View for ProviderConfig {
    type V = ProviderView;

    open spec fn view(&self) -> ProviderView {
        ProviderView { provider_type: self.provider_type@, settings: self.config@ }
    }
}

impl View for MultiProviderConfig {
    type V = ProvidersView;

    open spec fn view(&self) -> ProvidersView {
        ProvidersView {
            gemini: match self.gemini {
                Some(settings) => Some(settings@),
                None => None,
            },
            ollama: match self.ollama {
                Some(settings) => Some(settings@),
                None => None,
            },
            openai: match self.openai {
                Some(settings) => Some(settings@),
                None => None,
            },
        }
    }
}

impl View for Config {
    type V = ConfigView;

    open spec fn view(&self) -> ConfigView {
        ConfigView { active_provider: self.active_provider@, providers: self.providers@ }
    }
}

impl GeminiConfig {
    /// A copy of the settings.
    pub fn duplicate(&self) -> (copy: GeminiConfig)
        ensures
            copy@ == self@,
    {
        GeminiConfig { api_key: self.api_key.clone(), model: self.model.clone() }
    }
}

impl OllamaConfig {
    /// A copy of the settings.
    pub fn duplicate(&self) -> (copy: OllamaConfig)
        ensures
            copy@ == self@,
    {
        OllamaConfig { base_url: self.base_url.clone(), model: self.model.clone() }
    }
}

impl OpenAIConfig {
    /// A copy of the settings.
    pub fn duplicate(&self) -> (copy: OpenAIConfig)
        ensures
            copy@ == self@,
    {
        let api_key = match &self.api_key {
            Some(key) => Some(key.clone()),
            None => None,
        };
        OpenAIConfig { base_url: self.base_url.clone(), api_key, model: self.model.clone() }
    }
}

impl ProviderSpecificConfig {
    /// The name of the model.
    pub fn model(&self) -> (name: &str)
        ensures
            name@ == match self@ {
                SettingsView::Gemini(settings) => settings.model,
                SettingsView::Ollama(settings) => settings.model,
                SettingsView::OpenAI(settings) => settings.model,
            },
    {
        match self {
            ProviderSpecificConfig::Gemini { gemini } => gemini.model.as_str(),
            ProviderSpecificConfig::Ollama { ollama } => ollama.model.as_str(),
            ProviderSpecificConfig::OpenAI { openai } => openai.model.as_str(),
        }
    }
}

impl MultiProviderConfig {
    /// No provider set up.
    pub fn new() -> (providers: MultiProviderConfig)
        ensures
            providers@ == (ProvidersView { gemini: None, ollama: None, openai: None }),
    {
        MultiProviderConfig { gemini: None, ollama: None, openai: None }
    }
}

/// The active provider of a configuration, if it names a kind of provider
/// that was set up.
pub open spec fn active_provider(config: ConfigView) -> Option<ProviderView> {
    if config.active_provider == "gemini"@ {
        match config.providers.gemini {
            Some(settings) => Some(
                ProviderView {
                    provider_type: "gemini"@,
                    settings: SettingsView::Gemini(settings),
                },
            ),
            None => None,
        }
    } else if config.active_provider == "ollama"@ {
        match config.providers.ollama {
            Some(settings) => Some(
                ProviderView {
                    provider_type: "ollama"@,
                    settings: SettingsView::Ollama(settings),
                },
            ),
            None => None,
        }
    } else if config.active_provider == "openai"@ {
        match config.providers.openai {
            Some(settings) => Some(
                ProviderView {
                    provider_type: "openai"@,
                    settings: SettingsView::OpenAI(settings),
                },
            ),
            None => None,
        }
    } else {
        None
    }
}

/// Whether `result` is the provider that `expected` names.
pub open spec fn provider_matches(
    result: Option<ProviderConfig>,
    expected: Option<ProviderView>,
) -> bool {
    match result {
        Some(provider) => expected == Some(provider@),
        None => expected is None,
    }
}

impl Config {
    /// The active provider, if the configuration names one of the three
    /// kinds and holds settings for it.
    pub fn find_provider_config(&self) -> (provider: Option<ProviderConfig>)
        ensures
            provider_matches(provider, active_provider(self@)),
    {
        let name = self.active_provider.as_str();
        if str_eq(name, "gemini") {
            match &self.providers.gemini {
                Some(settings) => Some(
                    ProviderConfig {
                        provider_type: "gemini".to_owned(),
                        config: ProviderSpecificConfig::Gemini { gemini: settings.duplicate() },
                    },
                ),
                None => None,
            }
        } else if str_eq(name, "ollama") {
            match &self.providers.ollama {
                Some(settings) => Some(
                    ProviderConfig {
                        provider_type: "ollama".to_owned(),
                        config: ProviderSpecificConfig::Ollama { ollama: settings.duplicate() },
                    },
                ),
                None => None,
            }
        } else if str_eq(name, "openai") {
            match &self.providers.openai {
                Some(settings) => Some(
                    ProviderConfig {
                        provider_type: "openai".to_owned(),
                        config: ProviderSpecificConfig::OpenAI { openai: settings.duplicate() },
                    },
                ),
                None => None,
            }
        } else {
            None
        }
    }

    /// The active provider of a configuration that has one.
    pub fn get_provider_config(&self) -> (provider: ProviderConfig)
        requires
            active_provider(self@) is Some,
        ensures
            Some(provider@) == active_provider(self@),
    {
        match self.find_provider_config() {
            Some(provider) => provider,
            None => vstd::pervasive::unreached(),
        }
    }
}

/// The number of kinds of provider.
pub const PROVIDER_COUNT: usize = 3;

/// The name by which the configuration knows the kind of provider with the
/// given number.
pub open spec fn provider_key_of(index: int) -> Seq<char> {
    if index == 0 {
        "gemini"@
    } else if index == 1 {
        "ollama"@
    } else {
        "openai"@
    }
}

/// The name by which the configuration knows the kind of provider with the
/// given number.
pub fn provider_key(index: usize) -> (key: &'static str)
    requires
        index < PROVIDER_COUNT,
    ensures
        key@ == provider_key_of(index as int),
{
    if index == 0 {
        "gemini"
    } else if index == 1 {
        "ollama"
    } else {
        "openai"
    }
}

/// The name under which the kind of provider with the given number is
/// offered.
pub fn provider_label(index: usize) -> (label: &'static str)
    requires
        index < PROVIDER_COUNT,
    ensures
        label@ == if index == 0 {
            "Gemini API"@
        } else if index == 1 {
            "Ollama"@
        } else {
            "OpenAI Compatible"@
        },
{
    if index == 0 {
        "Gemini API"
    } else if index == 1 {
        "Ollama"
    } else {
        "OpenAI Compatible"
    }
}

/// Whether settings are saved for the kind of provider with the given
/// number.
pub open spec fn has_settings(providers: ProvidersView, index: int) -> bool {
    if index == 0 {
        providers.gemini is Some
    } else if index == 1 {
        providers.ollama is Some
    } else {
        providers.openai is Some
    }
}

/// Whether the user is offered the saved settings of the kind of provider
/// that was selected: where there are any, and the kind is not the active
/// one already.
pub fn offers_saved_credentials(
    selection: usize,
    current: Option<&str>,
    providers: &MultiProviderConfig,
) -> (offered: bool)
    requires
        selection < PROVIDER_COUNT,
    ensures
        offered == (has_settings(providers@, selection as int) && match current {
            Some(active) => active@ != provider_key_of(selection as int),
            None => true,
        }),
{
    let saved = if selection == 0 {
        providers.gemini.is_some()
    } else if selection == 1 {
        providers.ollama.is_some()
    } else {
        providers.openai.is_some()
    };
    let other = match current {
        Some(active) => !str_eq(active, provider_key(selection)),
        None => true,
    };
    saved && other
}

/// The settings of all providers once the given provider was set up: its
/// settings replace those of its kind.
pub open spec fn with_provider(providers: ProvidersView, settings: SettingsView) -> ProvidersView {
    match settings {
        SettingsView::Gemini(gemini) => ProvidersView {
            gemini: Some(gemini),
            ollama: providers.ollama,
            openai: providers.openai,
        },
        SettingsView::Ollama(ollama) => ProvidersView {
            gemini: providers.gemini,
            ollama: Some(ollama),
            openai: providers.openai,
        },
        SettingsView::OpenAI(openai) => ProvidersView {
            gemini: providers.gemini,
            ollama: providers.ollama,
            openai: Some(openai),
        },
    }
}

/// Stores the settings of a provider that was set up.
pub fn store_provider(providers: &mut MultiProviderConfig, provider: &ProviderConfig)
    ensures
        final(providers)@ == with_provider(old(providers)@, provider@.settings),
{
    match &provider.config {
        ProviderSpecificConfig::Gemini { gemini } => {
            providers.gemini = Some(gemini.duplicate());
        },
        ProviderSpecificConfig::Ollama { ollama } => {
            providers.ollama = Some(ollama.duplicate());
        },
        ProviderSpecificConfig::OpenAI { openai } => {
            providers.openai = Some(openai.duplicate());
        },
    }
}

/// The model that is proposed for Gemini.
pub const GEMINI_DEFAULT_MODEL: &'static str = "gemini-flash-latest";

/// The address that is proposed for Ollama.
pub const OLLAMA_DEFAULT_URL: &'static str = "http://localhost:11434";

/// The address that is proposed for OpenAI's interface.
pub const OPENAI_DEFAULT_URL: &'static str = "https://api.openai.com/v1";

/// A Gemini provider with the given settings.
pub fn configure_gemini(api_key: String, model: String) -> (provider: ProviderConfig)
    ensures
        provider@ == (ProviderView {
            provider_type: "gemini"@,
            settings: SettingsView::Gemini(GeminiView { api_key: api_key@, model: model@ }),
        }),
{
    ProviderConfig {
        provider_type: "gemini".to_owned(),
        config: ProviderSpecificConfig::Gemini { gemini: GeminiConfig { api_key, model } },
    }
}

/// An Ollama provider with the given settings.
pub fn configure_ollama(base_url: String, model: String) -> (provider: ProviderConfig)
    ensures
        provider@ == (ProviderView {
            provider_type: "ollama"@,
            settings: SettingsView::Ollama(OllamaView { base_url: base_url@, model: model@ }),
        }),
{
    ProviderConfig {
        provider_type: "ollama".to_owned(),
        config: ProviderSpecificConfig::Ollama { ollama: OllamaConfig { base_url, model } },
    }
}

/// A provider with OpenAI's interface and the given settings.
pub fn configure_openai(base_url: String, api_key: Option<String>, model: String) -> (provider:
    ProviderConfig)
    ensures
        provider@ == (ProviderView {
            provider_type: "openai"@,
            settings: SettingsView::OpenAI(
                OpenAIView {
                    base_url: base_url@,
                    api_key: match api_key {
                        Some(key) => Some(key@),
                        None => None,
                    },
                    model: model@,
                },
            ),
        }),
{
    ProviderConfig {
        provider_type: "openai".to_owned(),
        config: ProviderSpecificConfig::OpenAI {
            openai: OpenAIConfig { base_url, api_key, model },
        },
    }
}

/// A model's name is accepted unless it holds nothing but white space.
pub fn set_model_name(entered: &str) -> (accepted: bool)
    ensures
        accepted == (trimmed(entered@).len() > 0),
{
    !is_blank(&chars_of(entered))
}

} // verus!
