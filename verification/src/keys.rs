//! The API keys of the assistant's language-model providers, held in memory.

use vstd::prelude::*;

verus! {

/// One key slot per provider; `None` where no key was set.
pub struct ApiKeys {
    pub anthropic: Option<String>,
    pub perplexity: Option<String>,
    pub openai: Option<String>,
    pub xai: Option<String>,
    pub google: Option<String>,
    pub elevenlabs: Option<String>,
}

/// The providers that have a key slot.
#[derive(Clone, Copy, Debug, PartialEq, Eq, Structural)]
pub enum Provider {
    Anthropic,
    Perplexity,
    OpenAi,
    Xai,
    Google,
    ElevenLabs,
}

/// The provider that goes by `name`, if there is one.
pub open spec fn provider_named(name: Seq<char>) -> Option<Provider> {
    if name == "anthropic"@ {
        Some(Provider::Anthropic)
    } else if name == "perplexity"@ {
        Some(Provider::Perplexity)
    } else if name == "openai"@ {
        Some(Provider::OpenAi)
    } else if name == "xai"@ {
        Some(Provider::Xai)
    } else if name == "google"@ {
        Some(Provider::Google)
    } else if name == "elevenlabs"@ {
        Some(Provider::ElevenLabs)
    } else {
        None
    }
}

impl Provider {
    /// Looks a provider up by its lower-case name.
    pub fn parse(name: &str) -> (provider: Option<Provider>)
        ensures
            provider == provider_named(name@),
    {
        if name.eq("anthropic") {
            Some(Provider::Anthropic)
        } else if name.eq("perplexity") {
            Some(Provider::Perplexity)
        } else if name.eq("openai") {
            Some(Provider::OpenAi)
        } else if name.eq("xai") {
            Some(Provider::Xai)
        } else if name.eq("google") {
            Some(Provider::Google)
        } else if name.eq("elevenlabs") {
            Some(Provider::ElevenLabs)
        } else {
            None
        }
    }
}

impl ApiKeys {
    /// The key slot of `provider`.
    pub open spec fn slot(&self, provider: Provider) -> Option<String> {
        match provider {
            Provider::Anthropic => self.anthropic,
            Provider::Perplexity => self.perplexity,
            Provider::OpenAi => self.openai,
            Provider::Xai => self.xai,
            Provider::Google => self.google,
            Provider::ElevenLabs => self.elevenlabs,
        }
    }

    /// These keys with the slot of `provider` holding `key`.
    pub open spec fn with_key(&self, provider: Provider, key: String) -> ApiKeys {
        match provider {
            Provider::Anthropic => ApiKeys { anthropic: Some(key), ..*self },
            Provider::Perplexity => ApiKeys { perplexity: Some(key), ..*self },
            Provider::OpenAi => ApiKeys { openai: Some(key), ..*self },
            Provider::Xai => ApiKeys { xai: Some(key), ..*self },
            Provider::Google => ApiKeys { google: Some(key), ..*self },
            Provider::ElevenLabs => ApiKeys { elevenlabs: Some(key), ..*self },
        }
    }

    /// Stores `key` in the slot of the provider named `provider`. A name that
    /// no provider goes by changes nothing.
    pub fn set_key(&mut self, provider: &str, key: String)
        ensures
            *final(self) == match provider_named(provider@) {
                Some(p) => old(self).with_key(p, key),
                None => *old(self),
            },
    {
        match Provider::parse(provider) {
            Some(Provider::Anthropic) => {
                self.anthropic = Some(key);
            },
            Some(Provider::Perplexity) => {
                self.perplexity = Some(key);
            },
            Some(Provider::OpenAi) => {
                self.openai = Some(key);
            },
            Some(Provider::Xai) => {
                self.xai = Some(key);
            },
            Some(Provider::Google) => {
                self.google = Some(key);
            },
            Some(Provider::ElevenLabs) => {
                self.elevenlabs = Some(key);
            },
            None => {},
        }
    }

    /// The key of the provider named `provider`, if the name is known and a
    /// key was set.
    pub fn get_key(&self, provider: &str) -> (key: Option<String>)
        ensures
            key == match provider_named(provider@) {
                Some(p) => self.slot(p),
                None => None,
            },
    {
        match Provider::parse(provider) {
            Some(Provider::Anthropic) => self.anthropic.clone(),
            Some(Provider::Perplexity) => self.perplexity.clone(),
            Some(Provider::OpenAi) => self.openai.clone(),
            Some(Provider::Xai) => self.xai.clone(),
            Some(Provider::Google) => self.google.clone(),
            Some(Provider::ElevenLabs) => self.elevenlabs.clone(),
            None => None,
        }
    }
}

impl Default for ApiKeys {
    /// No key is set.
    fn default() -> (keys: Self)
        ensures
            keys.anthropic is None,
            keys.perplexity is None,
            keys.openai is None,
            keys.xai is None,
            keys.google is None,
            keys.elevenlabs is None,
    {
        ApiKeys {
            anthropic: None,
            perplexity: None,
            openai: None,
            xai: None,
            google: None,
            elevenlabs: None,
        }
    }
}

impl Provider {
    /// The lower-case name by which requests and storage know the provider.
    pub open spec fn spec_name(&self) -> Seq<char> {
        match self {
            Provider::Anthropic => "anthropic"@,
            Provider::Perplexity => "perplexity"@,
            Provider::OpenAi => "openai"@,
            Provider::Xai => "xai"@,
            Provider::Google => "google"@,
            Provider::ElevenLabs => "elevenlabs"@,
        }
    }

    /// The name of the provider as the user reads it.
    pub open spec fn spec_display_name(&self) -> Seq<char> {
        match self {
            Provider::Anthropic => "Anthropic"@,
            Provider::Perplexity => "Perplexity"@,
            Provider::OpenAi => "OpenAI"@,
            Provider::Xai => "xAI"@,
            Provider::Google => "Google"@,
            Provider::ElevenLabs => "ElevenLabs"@,
        }
    }

    /// The environment variable that may hold the provider's key.
    pub open spec fn spec_env_var(&self) -> Seq<char> {
        match self {
            Provider::Anthropic => "ANTHROPIC_API_KEY"@,
            Provider::Perplexity => "PERPLEXITY_API_KEY"@,
            Provider::OpenAi => "OPENAI_API_KEY"@,
            Provider::Xai => "XAI_API_KEY"@,
            Provider::Google => "GOOGLE_API_KEY"@,
            Provider::ElevenLabs => "ELEVENLABS_API_KEY"@,
        }
    }

    /// The lower-case name by which requests and storage know the provider.
    pub fn name(&self) -> (name: &'static str)
        ensures
            name@ == self.spec_name(),
    {
        match self {
            Provider::Anthropic => "anthropic",
            Provider::Perplexity => "perplexity",
            Provider::OpenAi => "openai",
            Provider::Xai => "xai",
            Provider::Google => "google",
            Provider::ElevenLabs => "elevenlabs",
        }
    }

    /// The name of the provider as the user reads it.
    pub fn display_name(&self) -> (name: &'static str)
        ensures
            name@ == self.spec_display_name(),
    {
        match self {
            Provider::Anthropic => "Anthropic",
            Provider::Perplexity => "Perplexity",
            Provider::OpenAi => "OpenAI",
            Provider::Xai => "xAI",
            Provider::Google => "Google",
            Provider::ElevenLabs => "ElevenLabs",
        }
    }

    /// The environment variable that may hold the provider's key.
    pub fn env_var(&self) -> (name: &'static str)
        ensures
            name@ == self.spec_env_var(),
    {
        match self {
            Provider::Anthropic => "ANTHROPIC_API_KEY",
            Provider::Perplexity => "PERPLEXITY_API_KEY",
            Provider::OpenAi => "OPENAI_API_KEY",
            Provider::Xai => "XAI_API_KEY",
            Provider::Google => "GOOGLE_API_KEY",
            Provider::ElevenLabs => "ELEVENLABS_API_KEY",
        }
    }

    /// What the user is told where the provider has no key.
    pub fn missing_key_message(&self) -> (message: String)
        ensures
            message@ == self.spec_display_name()
                + " API key not configured. Please add your API key in settings."@,
    {
        let mut message: String = self.display_name().to_owned();
        message.append(" API key not configured. Please add your API key in settings.");
        message
    }
}

/// The key to use for a request, from the three places where one may be: a
/// key in storage is taken as it is, even if it is empty; else a key held in
/// memory, if it is not empty; else the key in the environment, and the empty
/// text where there is none.
pub open spec fn resolved_key(
    stored: Option<Seq<char>>,
    held: Option<Seq<char>>,
    environment: Option<Seq<char>>,
) -> Seq<char> {
    match stored {
        Some(key) => key,
        None => match held {
            Some(key) if key.len() > 0 => key,
            _ => match environment {
                Some(key) => key,
                None => Seq::empty(),
            },
        },
    }
}

/// A text option as a value.
pub open spec fn key_text(key: Option<String>) -> Option<Seq<char>> {
    match key {
        Some(text) => Some(text@),
        None => None,
    }
}

/// Picks the key to use for a request from storage, memory and environment.
/// An empty result means that the provider has no key.
pub fn resolve_key(stored: Option<String>, held: Option<String>, environment: Option<String>) -> (key:
    String)
    ensures
        key@ == resolved_key(key_text(stored), key_text(held), key_text(environment)),
{
    match stored {
        Some(key) => key,
        None => {
            match held {
                Some(key) => {
                    if !key.as_str().is_empty() {
                        return key;
                    }
                },
                None => {},
            }
            match environment {
                Some(key) => key,
                None => String::new(),
            }
        },
    }
}

} // verus!
