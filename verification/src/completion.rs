//! Requests and answers of the completion providers, as plain data.

use vstd::prelude::*;

verus! {

/// One message of a completion request.
#[derive(Debug, PartialEq, Eq)]
pub struct Message {
    pub role: String,
    pub content: String,
}

/// A completion request: the provider to ask and the conversation so far.
#[derive(Debug, PartialEq, Eq)]
pub struct CompletionRequest {
    pub provider: String,
    pub messages: Vec<Message>,
}

/// A message in Gemini's format.
#[derive(Debug, PartialEq, Eq)]
pub struct GeminiMessage {
    pub role: String,
    pub parts: Vec<GeminiPart>,
}

/// One part of a Gemini message.
#[derive(Debug, PartialEq, Eq)]
pub struct GeminiPart {
    pub text: String,
}

/// Content of a Gemini request or candidate.
#[derive(Debug, PartialEq, Eq)]
pub struct GeminiContent {
    pub role: String,
    pub parts: Vec<GeminiPart>,
}

/// A safety threshold for one harm category.
#[derive(Debug, PartialEq, Eq)]
pub struct GeminiSafetySetting {
    pub category: String,
    pub threshold: String,
}

/// Gemini's answer.
#[derive(Debug, PartialEq, Eq)]
pub struct GeminiResponse {
    pub candidates: Vec<GeminiCandidate>,
    pub prompt_feedback: Option<GeminiFeedback>,
}

/// One candidate answer.
#[derive(Debug, PartialEq, Eq)]
pub struct GeminiCandidate {
    pub content: GeminiContent,
    pub finish_reason: Option<String>,
    pub safety_ratings: Option<Vec<GeminiSafetyRating>>,
}

/// Gemini's feedback on the prompt.
#[derive(Debug, PartialEq, Eq)]
pub struct GeminiFeedback {
    pub safety_ratings: Option<Vec<GeminiSafetyRating>>,
}

/// How likely a text falls under one harm category.
#[derive(Debug, PartialEq, Eq)]
pub struct GeminiSafetyRating {
    pub category: String,
    pub probability: String,
}

/// A request in Grok's format.
#[derive(Debug, PartialEq, Eq)]
pub struct GrokRequest {
    pub model: String,
    pub messages: Vec<Message>,
    pub stream: bool,
}

/// Grok's answer.
#[derive(Debug, PartialEq, Eq)]
pub struct GrokResponse {
    pub choices: Vec<GrokChoice>,
}

/// One choice in Grok's answer.
#[derive(Debug, PartialEq, Eq)]
pub struct GrokChoice {
    pub message: Message,
}

/// The providers of completions.
#[derive(Clone, Copy, Debug, PartialEq, Eq, Structural)]
pub enum CompletionProvider {
    Gemini,
    Grok,
}

/// The completion provider that goes by `name`, if there is one.
pub open spec fn completion_provider_named(name: Seq<char>) -> Option<CompletionProvider> {
    if name == "gemini"@ {
        Some(CompletionProvider::Gemini)
    } else if name == "grok"@ {
        Some(CompletionProvider::Grok)
    } else {
        None
    }
}

impl CompletionProvider {
    /// Looks a completion provider up by its name. Any other name is an
    /// unsupported provider.
    pub fn parse(name: &str) -> (provider: Result<CompletionProvider, String>)
        ensures
            match provider {
                Ok(found) => completion_provider_named(name@) == Some(found),
                Err(message) => completion_provider_named(name@) is None && message@
                    == "Unsupported AI provider"@,
            },
    {
        if name.eq("gemini") {
            Ok(CompletionProvider::Gemini)
        } else if name.eq("grok") {
            Ok(CompletionProvider::Grok)
        } else {
            Err("Unsupported AI provider".to_owned())
        }
    }

    /// The environment variable that holds the provider's key.
    pub fn env_var(&self) -> (name: &'static str)
        ensures
            name@ == match self {
                CompletionProvider::Gemini => "GEMINI_API_KEY"@,
                CompletionProvider::Grok => "GROK_API_KEY"@,
            },
    {
        match self {
            CompletionProvider::Gemini => "GEMINI_API_KEY",
            CompletionProvider::Grok => "GROK_API_KEY",
        }
    }

    /// What the user is told where the provider's key is not in the
    /// environment.
    pub fn missing_key_message(&self) -> (message: &'static str)
        ensures
            message@ == match self {
                CompletionProvider::Gemini => "Gemini API key not configured"@,
                CompletionProvider::Grok => "Grok API key not configured"@,
            },
    {
        match self {
            CompletionProvider::Gemini => "Gemini API key not configured",
            CompletionProvider::Grok => "Grok API key not configured",
        }
    }
}

/// The role that Gemini knows a message by: the user's messages are the
/// user's, all others are the model's.
pub open spec fn gemini_role(role: Seq<char>) -> Seq<char> {
    if role == "user"@ {
        "user"@
    } else {
        "model"@
    }
}

/// A message in Gemini's format: its role, and its text as the only part.
pub fn gemini_content(message: &Message) -> (content: GeminiContent)
    ensures
        content.role@ == gemini_role(message.role@),
        content.parts@.len() == 1,
        content.parts@[0].text@ == message.content@,
{
    let role: String = if message.role.as_str().eq("user") {
        "user".to_owned()
    } else {
        "model".to_owned()
    };
    let mut parts: Vec<GeminiPart> = Vec::new();
    parts.push(GeminiPart { text: message.content.clone() });
    GeminiContent { role, parts }
}

/// A conversation in Gemini's format, message by message.
pub fn gemini_contents(messages: &Vec<Message>) -> (contents: Vec<GeminiContent>)
    ensures
        contents@.len() == messages@.len(),
        forall|i: int|
            0 <= i < messages@.len() ==> {
                &&& (#[trigger] contents@[i]).role@ == gemini_role(messages@[i].role@)
                &&& contents@[i].parts@.len() == 1
                &&& contents@[i].parts@[0].text@ == messages@[i].content@
            },
{
    let mut contents: Vec<GeminiContent> = Vec::new();
    let mut i: usize = 0;
    while i < messages.len()
        invariant
            i <= messages@.len(),
            contents@.len() == i,
            forall|j: int|
                0 <= j < i ==> {
                    &&& (#[trigger] contents@[j]).role@ == gemini_role(messages@[j].role@)
                    &&& contents@[j].parts@.len() == 1
                    &&& contents@[j].parts@[0].text@ == messages@[j].content@
                },
        decreases messages@.len() - i,
    {
        contents.push(gemini_content(&messages[i]));
        i = i + 1;
    }
    contents
}

/// The harm categories for which a request sets a threshold.
pub open spec fn harm_categories() -> Seq<Seq<char>> {
    seq![
        "HARM_CATEGORY_HARASSMENT"@,
        "HARM_CATEGORY_HATE_SPEECH"@,
        "HARM_CATEGORY_SEXUALLY_EXPLICIT"@,
        "HARM_CATEGORY_DANGEROUS_CONTENT"@,
    ]
}

/// The safety settings of every request: medium and higher harm is blocked
/// in each category.
pub fn default_safety_settings() -> (settings: Vec<GeminiSafetySetting>)
    ensures
        settings@.len() == harm_categories().len(),
        forall|i: int|
            0 <= i < settings@.len() ==> (#[trigger] settings@[i]).category@
                == harm_categories()[i] && settings@[i].threshold@ == "BLOCK_MEDIUM_AND_ABOVE"@,
{
    let categories: [&'static str; 4] = [
        "HARM_CATEGORY_HARASSMENT",
        "HARM_CATEGORY_HATE_SPEECH",
        "HARM_CATEGORY_SEXUALLY_EXPLICIT",
        "HARM_CATEGORY_DANGEROUS_CONTENT",
    ];
    let mut settings: Vec<GeminiSafetySetting> = Vec::new();
    let mut i: usize = 0;
    while i < 4
        invariant
            i <= 4,
            categories@.len() == 4,
            forall|j: int| 0 <= j < 4 ==> (#[trigger] categories@[j])@ == harm_categories()[j],
            settings@.len() == i,
            forall|j: int|
                0 <= j < i ==> (#[trigger] settings@[j]).category@ == harm_categories()[j]
                    && settings@[j].threshold@ == "BLOCK_MEDIUM_AND_ABOVE"@,
        decreases 4 - i,
    {
        settings.push(
            GeminiSafetySetting {
                category: categories[i].to_owned(),
                threshold: "BLOCK_MEDIUM_AND_ABOVE".to_owned(),
            },
        );
        i = i + 1;
    }
    settings
}

impl GeminiResponse {
    /// The text of the answer: the first part of the first candidate.
    pub fn first_text(&self) -> (text: Result<String, String>)
        ensures
            match text {
                Ok(found) => self.candidates@.len() > 0 && self.candidates@[0].content.parts@.len()
                    > 0 && found@ == self.candidates@[0].content.parts@[0].text@,
                Err(message) => if self.candidates@.len() == 0 {
                    message@ == "No response candidates from Gemini API"@
                } else {
                    self.candidates@[0].content.parts@.len() == 0 && message@
                        == "Invalid response format from Gemini API"@
                },
            },
    {
        if self.candidates.len() == 0 {
            return Err("No response candidates from Gemini API".to_owned());
        }
        let parts: &Vec<GeminiPart> = &self.candidates[0].content.parts;
        if parts.len() == 0 {
            return Err("Invalid response format from Gemini API".to_owned());
        }
        Ok(parts[0].text.clone())
    }
}

impl GrokResponse {
    /// The text of the answer: the content of the first choice.
    pub fn first_content(&self) -> (content: Result<String, String>)
        ensures
            match content {
                Ok(found) => self.choices@.len() > 0 && found@
                    == self.choices@[0].message.content@,
                Err(message) => self.choices@.len() == 0 && message@
                    == "Invalid response format from Grok API"@,
            },
    {
        if self.choices.len() == 0 {
            return Err("Invalid response format from Grok API".to_owned());
        }
        Ok(self.choices[0].message.content.clone())
    }
}

} // verus!
