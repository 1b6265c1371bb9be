//! Requests of the settings dialog and the stored keys, as plain data.

use crate::keys::Provider;
use vstd::prelude::*;

verus! {

/// All keys at once, as the settings dialog sends them. An empty text asks for
/// the provider's key to be removed.
#[derive(Debug, PartialEq, Eq)]
pub struct SetApiKeysRequest {
    pub anthropic: String,
    pub perplexity: String,
    pub openai: String,
    pub xai: String,
    pub google: String,
    pub elevenlabs: String,
}

/// One key to store for one provider.
#[derive(Debug, PartialEq, Eq)]
pub struct StoreApiKeyRequest {
    pub provider: String,
    pub key: String,
}

/// The keys found in storage; `None` where a provider has none.
#[derive(Debug, PartialEq, Eq)]
pub struct StoredApiKeys {
    pub anthropic: Option<String>,
    pub perplexity: Option<String>,
    pub openai: Option<String>,
    pub xai: Option<String>,
    pub google: Option<String>,
    pub elevenlabs: Option<String>,
}

/// Whether the configuration was set up.
pub struct ConfigState {
    initialized: bool,
}

impl ConfigState {
    /// Whether the configuration was set up.
    pub closed spec fn is_initialized(&self) -> bool {
        self.initialized
    }

    /// A configuration that is not set up yet.
    pub fn new() -> (state: Self)
        ensures
            !state.is_initialized(),
    {
        ConfigState { initialized: false }
    }
}

/// What is to happen to the stored key of one provider.
#[derive(Debug, PartialEq, Eq)]
pub struct KeyUpdate {
    pub provider: Provider,
    /// The key to store, or `None` to remove the stored key.
    pub key: Option<String>,
}

/// A key update as a value.
pub struct KeyChange {
    pub provider: Provider,
    pub key: Option<Seq<char>>,
}

impl View for KeyUpdate {
    type V = KeyChange;

    open spec fn view(&self) -> KeyChange {
        KeyChange {
            provider: self.provider,
            key: match self.key {
                Some(text) => Some(text@),
                None => None,
            },
        }
    }
}

/// The change that a text of the settings dialog asks for: store it, or, if
/// it is empty, remove what is stored.
pub open spec fn change_for(provider: Provider, text: Seq<char>) -> KeyChange {
    KeyChange {
        provider,
        key: if text.len() > 0 {
            Some(text)
        } else {
            None
        },
    }
}

impl SetApiKeysRequest {
    /// The changes that the request asks for, one for each provider.
    pub open spec fn changes(&self) -> Seq<KeyChange> {
        seq![
            change_for(Provider::Anthropic, self.anthropic@),
            change_for(Provider::Perplexity, self.perplexity@),
            change_for(Provider::OpenAi, self.openai@),
            change_for(Provider::Xai, self.xai@),
            change_for(Provider::Google, self.google@),
            change_for(Provider::ElevenLabs, self.elevenlabs@),
        ]
    }

    /// The changes to make to the stored keys, one for each provider: a key
    /// that is given is stored, a key that is left empty is removed.
    pub fn updates(&self) -> (updates: Vec<KeyUpdate>)
        ensures
            updates@.len() == 6,
            forall|i: int| 0 <= i < 6 ==> (#[trigger] updates@[i])@ == self.changes()[i],
    {
        let mut updates: Vec<KeyUpdate> = Vec::new();
        updates.push(update_for(Provider::Anthropic, &self.anthropic));
        updates.push(update_for(Provider::Perplexity, &self.perplexity));
        updates.push(update_for(Provider::OpenAi, &self.openai));
        updates.push(update_for(Provider::Xai, &self.xai));
        updates.push(update_for(Provider::Google, &self.google));
        updates.push(update_for(Provider::ElevenLabs, &self.elevenlabs));
        updates
    }
}

/// The update that a text of the settings dialog asks for.
pub fn update_for(provider: Provider, text: &String) -> (update: KeyUpdate)
    ensures
        update@ == change_for(provider, text@),
{
    if !text.as_str().is_empty() {
        KeyUpdate { provider, key: Some(text.clone()) }
    } else {
        KeyUpdate { provider, key: None }
    }
}

} // verus!
