//! The two providers and how their credentials are obtained.

use crate::text::{trim, trimmed};
use vstd::prelude::*;
use vstd::string::StringExecFns;

verus! {

/// The two providers: Moonshot answers, DeepSeek reviews.
#[derive(Clone, Copy, Debug, PartialEq, Eq, Structural)]
pub enum Provider {
    Moonshot,
    DeepSeek,
}

/// The name of the environment variable that holds the provider's key.
pub open spec fn env_var_name(provider: Provider) -> Seq<char> {
    match provider {
        Provider::Moonshot => "MOONSHOT_API_KEY"@,
        Provider::DeepSeek => "DEEPSEEK_API_KEY"@,
    }
}

/// The name under which the provider is shown.
pub open spec fn display_name(provider: Provider) -> Seq<char> {
    match provider {
        Provider::Moonshot => "Moonshot AI"@,
        Provider::DeepSeek => "DeepSeek AI"@,
    }
}

/// The address that the provider's requests go to.
pub open spec fn endpoint(provider: Provider) -> Seq<char> {
    match provider {
        Provider::Moonshot => "https://api.moonshot.cn/v1/chat/completions"@,
        Provider::DeepSeek => "https://api.deepseek.com/chat/completions"@,
    }
}

/// The model that is asked for at the provider.
pub open spec fn model_name(provider: Provider) -> Seq<char> {
    match provider {
        Provider::Moonshot => "moonshot-v1-8k"@,
        Provider::DeepSeek => "deepseek-chat"@,
    }
}

impl Provider {
    pub fn env_var(&self) -> (name: &'static str)
        ensures
            name@ == env_var_name(*self),
    {
        match self {
            Provider::Moonshot => "MOONSHOT_API_KEY",
            Provider::DeepSeek => "DEEPSEEK_API_KEY",
        }
    }

    pub fn display_name(&self) -> (name: &'static str)
        ensures
            name@ == display_name(*self),
    {
        match self {
            Provider::Moonshot => "Moonshot AI",
            Provider::DeepSeek => "DeepSeek AI",
        }
    }

    pub fn endpoint(&self) -> (url: &'static str)
        ensures
            url@ == endpoint(*self),
    {
        match self {
            Provider::Moonshot => "https://api.moonshot.cn/v1/chat/completions",
            Provider::DeepSeek => "https://api.deepseek.com/chat/completions",
        }
    }

    pub fn model(&self) -> (name: &'static str)
        ensures
            name@ == model_name(*self),
    {
        match self {
            Provider::Moonshot => "moonshot-v1-8k",
            Provider::DeepSeek => "deepseek-chat",
        }
    }
}

pub struct AiConfigView {
    pub api_key: Seq<char>,
    pub base_url: Seq<char>,
    pub model: Seq<char>,
    pub name: Seq<char>,
}

/// What is needed to reach one provider.
#[derive(Clone, Debug, PartialEq, Eq)]
pub struct AiConfig {
    pub api_key: String,
    pub base_url: String,
    pub model: String,
    pub name: String,
}

impl View for AiConfig {
    type V = AiConfigView;

    open spec fn view(&self) -> AiConfigView {
        AiConfigView {
            api_key: self.api_key@,
            base_url: self.base_url@,
            model: self.model@,
            name: self.name@,
        }
    }
}

/// The configuration of `provider` with the key `api_key`.
pub open spec fn config_of(provider: Provider, api_key: Seq<char>) -> AiConfigView {
    AiConfigView {
        api_key,
        base_url: endpoint(provider),
        model: model_name(provider),
        name: display_name(provider),
    }
}

/// The file in the user's home directory that keeps entered keys.
pub fn config_file_name() -> (name: &'static str)
    ensures
        name@ == ".ai_vs_ai_config"@,
{
    ".ai_vs_ai_config"
}

/// The question put to the operator when the key of `provider_name` is missing.
pub open spec fn key_prompt(provider_name: Seq<char>) -> Seq<char> {
    "Enter API Key for "@ + provider_name + ": "@
}

/// The line that keeps `key` under `env_var` in the file of entered keys.
pub open spec fn store_line(env_var: Seq<char>, key: Seq<char>) -> Seq<char> {
    env_var + "="@ + key + "\n"@
}

/// What the environment gives for a key: the key itself, or the need to ask.
#[derive(Clone, Debug, PartialEq, Eq)]
pub enum KeyLookup {
    /// The environment holds this key.
    Found(String),
    /// The environment holds none: the operator is asked with this prompt.
    Ask { prompt: String },
}

/// Why a configuration could not be had.
#[derive(Clone, Debug, PartialEq, Eq)]
pub enum ConfigError {
    /// The operator entered nothing for the key of `provider`.
    MissingCredential { provider: String },
}

/// What the operator is told when the key of `provider_name` is missing.
pub open spec fn missing_credential_text(provider_name: Seq<char>) -> Seq<char> {
    "API Key for "@ + provider_name + " cannot be empty"@
}

impl ConfigError {
    /// What the operator is told of the error.
    pub fn message(&self) -> (text: String)
        ensures
            self matches ConfigError::MissingCredential { provider } && text@
                == missing_credential_text(provider@),
    {
        match self {
            ConfigError::MissingCredential { provider } => {
                let mut text = "API Key for ".to_owned();
                text.append(provider.as_str());
                text.append(" cannot be empty");
                text
            },
        }
    }
}

/// A key that the operator entered, and the line that keeps it for later runs.
#[derive(Clone, Debug, PartialEq, Eq)]
pub struct EnteredKey {
    pub key: String,
    pub store_line: String,
}

/// What is known of a provider after a look at the environment.
#[derive(Clone, Debug, PartialEq, Eq)]
pub enum Resolution {
    /// The key was there.
    Ready(AiConfig),
    /// The key has to be entered: the operator is asked with this prompt.
    NeedsKey { prompt: String },
}

/// A configuration made from an entered key, and the line that keeps the key.
#[derive(Clone, Debug, PartialEq, Eq)]
pub struct Resolved {
    pub config: AiConfig,
    pub store_line: String,
}

impl AiConfig {
    /// Decides from the value of the provider's environment variable
    /// (`None` where it is not set) whether the operator has to be asked.
    pub fn get_api_key(env_value: Option<String>, provider_name: &str) -> (lookup: KeyLookup)
        ensures
            match lookup {
                KeyLookup::Found(key) => env_value matches Some(value) && value@.len() > 0 && key@
                    == value@,
                KeyLookup::Ask { prompt } => (env_value matches Some(value) ==> value@.len() == 0)
                    && prompt@ == key_prompt(provider_name@),
            },
    {
        match env_value {
            Some(value) => {
                if !value.as_str().is_empty() {
                    return KeyLookup::Found(value);
                }
            },
            None => {},
        }
        let mut prompt = "Enter API Key for ".to_owned();
        prompt.append(provider_name);
        prompt.append(": ");
        KeyLookup::Ask { prompt }
    }

    /// Takes the line that the operator entered for a key: the key is the
    /// line without the whitespace around it, and an empty key is refused.
    pub fn accept_entered_key(env_var: &str, provider_name: &str, input: &str) -> (result: Result<
        EnteredKey,
        ConfigError,
    >)
        ensures
            match result {
                Ok(entered) => trimmed(input@).len() > 0 && entered.key@ == trimmed(input@)
                    && entered.store_line@ == store_line(env_var@, trimmed(input@)),
                Err(ConfigError::MissingCredential { provider }) => trimmed(input@).len() == 0
                    && provider@ == provider_name@,
            },
    {
        let key = trim(input);
        if key.as_str().is_empty() {
            return Err(ConfigError::MissingCredential { provider: provider_name.to_owned() });
        }
        let mut line = env_var.to_owned();
        line.append("=");
        line.append(key.as_str());
        line.append("\n");
        Ok(EnteredKey { key, store_line: line })
    }

    /// The configuration of `provider` with the key `api_key`.
    pub fn for_provider(provider: Provider, api_key: String) -> (config: AiConfig)
        ensures
            config@ == config_of(provider, api_key@),
    {
        AiConfig {
            api_key,
            base_url: provider.endpoint().to_owned(),
            model: provider.model().to_owned(),
            name: provider.display_name().to_owned(),
        }
    }

    /// The configuration of the answering provider.
    pub fn moonshot(api_key: String) -> (config: AiConfig)
        ensures
            config@ == config_of(Provider::Moonshot, api_key@),
    {
        AiConfig::for_provider(Provider::Moonshot, api_key)
    }

    /// The configuration of the reviewing provider.
    pub fn deepseek(api_key: String) -> (config: AiConfig)
        ensures
            config@ == config_of(Provider::DeepSeek, api_key@),
    {
        AiConfig::for_provider(Provider::DeepSeek, api_key)
    }

    /// First step of resolving a provider: with the value of its environment
    /// variable, the configuration is ready unless the value is missing or
    /// empty.
    pub fn resolve(provider: Provider, env_value: Option<String>) -> (resolution: Resolution)
        ensures
            match resolution {
                Resolution::Ready(config) => env_value matches Some(value) && value@.len() > 0
                    && config@ == config_of(provider, value@),
                Resolution::NeedsKey { prompt } => (env_value matches Some(value) ==> value@.len()
                    == 0) && prompt@ == key_prompt(display_name(provider)),
            },
    {
        match AiConfig::get_api_key(env_value, provider.display_name()) {
            KeyLookup::Found(key) => Resolution::Ready(AiConfig::for_provider(provider, key)),
            KeyLookup::Ask { prompt } => Resolution::NeedsKey { prompt },
        }
    }

    /// Second step of resolving a provider, with the line that the operator
    /// entered: the configuration and the line to keep, or the error for an
    /// empty key.
    pub fn resolve_entered(provider: Provider, input: &str) -> (result: Result<
        Resolved,
        ConfigError,
    >)
        ensures
            match result {
                Ok(resolved) => trimmed(input@).len() > 0 && resolved.config@ == config_of(
                    provider,
                    trimmed(input@),
                ) && resolved.store_line@ == store_line(env_var_name(provider), trimmed(input@)),
                Err(ConfigError::MissingCredential { provider: name }) => trimmed(input@).len()
                    == 0 && name@ == display_name(provider),
            },
    {
        match AiConfig::accept_entered_key(provider.env_var(), provider.display_name(), input) {
            Ok(entered) => Ok(
                Resolved {
                    config: AiConfig::for_provider(provider, entered.key),
                    store_line: entered.store_line,
                },
            ),
            Err(error) => Err(error),
        }
    }
}

} // verus!
