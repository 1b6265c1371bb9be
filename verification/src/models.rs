//! Messages exchanged with the chat providers, as plain data.

use crate::strings::{contains_text, has_part, trimmed};
use vstd::prelude::*;

verus! {

/// One message of a conversation.
#[derive(Debug, PartialEq, Eq)]
pub struct ChatMessage {
    pub role: String,
    pub content: String,
}

/// A provider's answer to a chat request.
#[derive(Debug, PartialEq, Eq)]
pub struct ChatResponse {
    pub id: String,
    pub content: Vec<ChatResponseContent>,
    pub model: String,
    pub role: String,
}

/// One block of content in a chat response.
#[derive(Debug, PartialEq, Eq)]
pub struct ChatResponseContent {
    pub text: String,
    pub content_type: String,
}

/// The answer of the Perplexity provider.
#[derive(Debug, PartialEq, Eq)]
pub struct PerplexityResponse {
    pub choices: Vec<PerplexityChoice>,
}

/// One choice in a Perplexity answer.
#[derive(Debug, PartialEq, Eq)]
pub struct PerplexityChoice {
    pub message: PerplexityMessage,
}

/// The message of a Perplexity choice, with the sources it cites.
#[derive(Debug, PartialEq, Eq)]
pub struct PerplexityMessage {
    pub content: String,
    pub citations: Vec<PerplexityCitation>,
}

/// A source cited by Perplexity.
#[derive(Debug, PartialEq, Eq)]
pub struct PerplexityCitation {
    pub text: String,
    pub url: String,
}

/// What a chat command hands back to the user interface: content or an error,
/// with optional extras.
#[derive(Debug, PartialEq, Eq)]
pub struct ApiResponse {
    pub content: Option<String>,
    pub error: Option<String>,
    pub citations: Option<Vec<Citation>>,
    pub images: Option<Vec<String>>,
    pub related_questions: Option<Vec<String>>,
}

/// A request to check a provider's key.
#[derive(Debug, PartialEq, Eq)]
pub struct VerifyRequest {
    pub key: String,
    pub provider: String,
}

/// A request to send one message to a provider's model.
#[derive(Debug, PartialEq, Eq)]
pub struct SendMessageRequest {
    pub message: String,
    pub model: String,
    pub provider: String,
    pub file_content: Option<String>,
    pub file_name: Option<String>,
}

/// A cited source as shown to the user.
#[derive(Debug, PartialEq, Eq)]
pub struct Citation {
    pub url: String,
    pub title: Option<String>,
}

impl ApiResponse {
    /// A response that carries `content` and nothing else.
    pub fn with_content(content: String) -> (response: Self)
        ensures
            response.content == Some(content),
            response.error is None,
            response.citations is None,
            response.images is None,
            response.related_questions is None,
    {
        ApiResponse {
            content: Some(content),
            error: None,
            citations: None,
            images: None,
            related_questions: None,
        }
    }

    /// A response that carries `error` and nothing else.
    pub fn with_error(error: String) -> (response: Self)
        ensures
            response.content is None,
            response.error == Some(error),
            response.citations is None,
            response.images is None,
            response.related_questions is None,
    {
        ApiResponse {
            content: None,
            error: Some(error),
            citations: None,
            images: None,
            related_questions: None,
        }
    }
}

/// Whether a model of this name can complete or embed text.
pub open spec fn is_compatible_model(id: Seq<char>) -> bool {
    has_part(id, "gpt"@) || has_part(id, "text-embedding"@)
}

/// The compatible models among `ids`, in their order.
pub open spec fn compatible_models(ids: Seq<Seq<char>>) -> Seq<Seq<char>>
    decreases ids.len(),
{
    if ids.len() == 0 {
        Seq::empty()
    } else if is_compatible_model(ids.last()) {
        compatible_models(ids.drop_last()).push(ids.last())
    } else {
        compatible_models(ids.drop_last())
    }
}

/// Picks the models that can complete or embed text from the names that a
/// provider lists. It is an error if there is none.
pub fn select_models(ids: Vec<String>) -> (models: Result<Vec<String>, String>)
    ensures
        match models {
            Ok(selected) => selected.deep_view() == compatible_models(ids.deep_view())
                && selected@.len() > 0,
            Err(message) => compatible_models(ids.deep_view()).len() == 0 && message@
                == "No compatible models found"@,
        },
{
    let ghost all = ids.deep_view();
    let mut selected: Vec<String> = Vec::new();
    let mut i: usize = 0;
    while i < ids.len()
        invariant
            i <= ids@.len(),
            all == ids.deep_view(),
            all.len() == ids@.len(),
            selected.deep_view() == compatible_models(all.take(i as int)),
        decreases ids@.len() - i,
    {
        proof {
            assert(all.take(i + 1).drop_last() =~= all.take(i as int));
        }
        let id: &String = &ids[i];
        if contains_text(id.as_str(), "gpt") || contains_text(id.as_str(), "text-embedding") {
            selected.push(id.clone());
        }
        i = i + 1;
    }
    proof {
        assert(all.take(ids@.len() as int) =~= all);
    }
    if selected.len() == 0 {
        Err("No compatible models found".to_owned())
    } else {
        Ok(selected)
    }
}

/// The text of a completion as it is handed to the user: trimmed. A response
/// without the text is in an invalid format.
pub fn completion_text(text: Option<String>) -> (completion: Result<String, String>)
    ensures
        match completion {
            Ok(trimmed_text) => text matches Some(raw) && trimmed_text@ == trimmed(raw@),
            Err(message) => text is None && message@ == "Invalid response format"@,
        },
{
    match text {
        Some(raw) => Ok(raw.as_str().trim().to_owned()),
        None => Err("Invalid response format".to_owned()),
    }
}

} // verus!
