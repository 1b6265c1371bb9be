//! What the answer of a chat provider comes to.
//!
//! The program sends the request and reads the response. It reports what
//! came back as an `Exchange`, with the few members of the response that the
//! rules look at; the functions here decide what the user gets to see.

use crate::keys::Provider;
use crate::models::ApiResponse;
use crate::strings::{contains_text, has_part};
use vstd::prelude::*;

verus! {

/// The members of a response in JSON that the rules look at. A member that
/// is missing or is no text is `None`.
#[derive(Debug, PartialEq, Eq)]
pub struct ReplyJson {
    /// `content[0].text`
    pub content_text: Option<String>,
    /// `choices[0].message.content`
    pub choice_text: Option<String>,
    /// `candidates[0].content.parts[0].text`
    pub candidate_text: Option<String>,
    /// Whether there is a member `error`.
    pub has_error: bool,
    /// Whether the member `error` is an object.
    pub error_is_object: bool,
    /// `error.message`
    pub error_message: Option<String>,
    /// `error.type`
    pub error_type: Option<String>,
}

/// A response that was read.
#[derive(Debug, PartialEq, Eq)]
pub struct Reply {
    /// Whether the status says that the request succeeded.
    pub success: bool,
    /// The status as the user reads it.
    pub status: String,
    /// The body of the response.
    pub body: String,
    /// The body as JSON, or why it is none.
    pub json: Result<ReplyJson, String>,
}

/// What came of sending a request.
#[derive(Debug, PartialEq, Eq)]
pub enum Exchange {
    /// The request could not be sent.
    SendFailed(String),
    /// The body of the response could not be read.
    ReadFailed(String),
    /// A response was read.
    Replied(Reply),
}

/// What the user gets to see: the content of the answer, or an error.
pub enum Answer {
    Content(Seq<char>),
    Error(Seq<char>),
}

/// Whether `response` shows `answer` and nothing else.
pub open spec fn shows(response: ApiResponse, answer: Answer) -> bool {
    &&& response.citations is None
    &&& response.images is None
    &&& response.related_questions is None
    &&& match answer {
        Answer::Content(text) => response.error is None && response.content is Some
            && response.content->Some_0@ == text,
        Answer::Error(text) => response.content is None && response.error is Some
            && response.error->Some_0@ == text,
    }
}

/// A text that may be missing, with `fallback` in its place.
pub open spec fn text_or(text: Option<String>, fallback: Seq<char>) -> Seq<char> {
    match text {
        Some(t) => t@,
        None => fallback,
    }
}

/// Whether an error message of Gemini speaks of an exhausted quota.
pub open spec fn is_rate_limit_message(message: Seq<char>) -> bool {
    has_part(message, "rate limit exceeded"@) || has_part(message, "resource exhausted"@)
}

/// Whether the error of a response of Grok is of the type that speaks of an
/// exhausted quota.
pub open spec fn is_rate_limit_error(json: ReplyJson) -> bool {
    json.error_is_object && json.error_type is Some && json.error_type->Some_0@
        == "rate_limit_exceeded"@
}

/// The name of a provider's interface in messages to the user.
pub open spec fn api_name(provider: Provider) -> Seq<char> {
    match provider {
        Provider::Anthropic => "Anthropic"@,
        Provider::Perplexity => "Perplexity"@,
        Provider::OpenAi => "OpenAI"@,
        Provider::Xai => "Grok"@,
        Provider::Google => "Gemini"@,
        Provider::ElevenLabs => "ElevenLabs"@,
    }
}

/// What a request that could not be sent comes to: for Anthropic the command
/// fails; for the others the user is told.
pub open spec fn answer_to_send_failure(provider: Provider, reason: Seq<char>) -> Result<
    Answer,
    Seq<char>,
> {
    match provider {
        Provider::Anthropic => Err(reason),
        _ => Ok(
            Answer::Error("Failed to send request to "@ + api_name(provider) + " API: "@ + reason),
        ),
    }
}

/// What a response with a status of success comes to.
pub open spec fn answer_to_success(provider: Provider, reply: Reply) -> Result<Answer, Seq<char>> {
    match reply.json {
        Err(reason) => match provider {
            Provider::Google => Ok(Answer::Error("Failed to parse Gemini response: "@ + reason@)),
            _ => Err(reason@),
        },
        Ok(json) => match provider {
            Provider::Anthropic => Ok(Answer::Content(text_or(json.content_text, ""@))),
            Provider::OpenAi => Ok(Answer::Content(text_or(json.choice_text, ""@))),
            Provider::Perplexity => Ok(Answer::Content(text_or(json.choice_text, ""@))),
            Provider::Xai => if is_rate_limit_error(json) {
                Ok(Answer::Error("Rate limit exceeded for Grok. Please try again later."@))
            } else {
                Ok(Answer::Content(text_or(json.choice_text, ""@)))
            },
            Provider::Google => if json.has_error {
                if is_rate_limit_message(text_or(json.error_message, "Unknown error"@)) {
                    Ok(
                        Answer::Error(
                            "Rate limit exceeded for Gemini API. Please try again in about an hour."@,
                        ),
                    )
                } else {
                    Ok(
                        Answer::Error(
                            "API Error: "@ + text_or(json.error_message, "Unknown error"@),
                        ),
                    )
                }
            } else {
                match json.candidate_text {
                    Some(text) => Ok(Answer::Content(text@)),
                    None => Ok(Answer::Error("Could not parse Gemini response structure"@)),
                }
            },
            Provider::ElevenLabs => Ok(speech_notice()),
        },
    }
}

/// What a response with a status of failure comes to.
pub open spec fn answer_to_failure(provider: Provider, reply: Reply) -> Answer {
    match provider {
        Provider::OpenAi => Answer::Error(
            "OpenAI API Error: "@ + match reply.json {
                Ok(json) => text_or(json.error_message, "Unknown error occurred"@),
                Err(_) => "Unknown error occurred"@,
            },
        ),
        Provider::Xai => if reply.json is Ok && is_rate_limit_error(reply.json->Ok_0) {
            Answer::Error("Rate limit exceeded for Grok. Please try again later."@)
        } else {
            Answer::Error("API Error: "@ + reply.body@)
        },
        Provider::Google => if reply.json is Ok && reply.json->Ok_0.has_error {
            let reason = text_or(reply.json->Ok_0.error_message, "Unknown error"@);
            if is_rate_limit_message(reason) {
                Answer::Error(
                    "Rate limit exceeded for Gemini API. Please try again in about an hour."@,
                )
            } else {
                Answer::Error("Gemini API Error: "@ + reason)
            }
        } else {
            Answer::Error(
                "Gemini API request failed with status "@ + reply.status@ + ": "@ + reply.body@,
            )
        },
        _ => Answer::Error("API Error: "@ + reply.body@),
    }
}

/// What the user is told where speech is asked of the chat: it has no part
/// in it yet.
pub open spec fn speech_notice() -> Answer {
    Answer::Content("Text-to-speech conversion not yet implemented"@)
}

/// What an exchange with a provider comes to: an answer for the user, or the
/// failure of the command. ElevenLabs, which speaks and does not chat, has
/// its notice for an answer, whatever the exchange.
pub open spec fn answer_of(provider: Provider, exchange: Exchange) -> Result<Answer, Seq<char>> {
    if provider == Provider::ElevenLabs {
        Ok(speech_notice())
    } else {
        chat_answer_of(provider, exchange)
    }
}

/// What an exchange with a chat provider comes to.
pub open spec fn chat_answer_of(provider: Provider, exchange: Exchange) -> Result<Answer, Seq<char>> {
    match exchange {
        Exchange::SendFailed(reason) => answer_to_send_failure(provider, reason@),
        Exchange::ReadFailed(reason) => Err(reason@),
        Exchange::Replied(reply) => if reply.success {
            answer_to_success(provider, reply)
        } else {
            Ok(answer_to_failure(provider, reply))
        },
    }
}

/// A result for the user, as a value.
pub open spec fn shown(result: Result<ApiResponse, String>, expected: Result<Answer, Seq<char>>) -> bool {
    match result {
        Ok(response) => expected is Ok && shows(response, expected->Ok_0),
        Err(reason) => expected is Err && reason@ == expected->Err_0,
    }
}

/// The name of a provider's interface in messages to the user.
pub fn provider_api_name(provider: Provider) -> (name: &'static str)
    ensures
        name@ == api_name(provider),
{
    match provider {
        Provider::Anthropic => "Anthropic",
        Provider::Perplexity => "Perplexity",
        Provider::OpenAi => "OpenAI",
        Provider::Xai => "Grok",
        Provider::Google => "Gemini",
        Provider::ElevenLabs => "ElevenLabs",
    }
}

/// `prefix` followed by `text`.
fn prefixed(prefix: &str, text: &str) -> (joined: String)
    ensures
        joined@ == prefix@ + text@,
{
    let mut joined: String = prefix.to_owned();
    joined.append(text);
    joined
}

/// `text`, or `fallback` where it is missing.
fn or_fallback<'a>(text: &'a Option<String>, fallback: &'a str) -> (chosen: &'a str)
    ensures
        chosen@ == text_or(*text, fallback@),
{
    match text {
        Some(t) => t.as_str(),
        None => fallback,
    }
}

/// Whether an error message of Gemini speaks of an exhausted quota.
fn rate_limit_message(message: &str) -> (limited: bool)
    ensures
        limited == is_rate_limit_message(message@),
{
    contains_text(message, "rate limit exceeded") || contains_text(message, "resource exhausted")
}

/// Whether the error of a response of Grok speaks of an exhausted quota.
fn rate_limit_error(json: &ReplyJson) -> (limited: bool)
    ensures
        limited == is_rate_limit_error(*json),
{
    if !json.error_is_object {
        return false;
    }
    match &json.error_type {
        Some(kind) => kind.as_str().eq("rate_limit_exceeded"),
        None => false,
    }
}

/// What the user is told where the request names a provider that is not
/// known.
pub fn unsupported_provider_reply(name: &str) -> (response: ApiResponse)
    ensures
        shows(response, Answer::Error("Unsupported provider: "@ + name@)),
{
    ApiResponse::with_error(prefixed("Unsupported provider: ", name))
}

/// What the user is told where the provider has no key.
pub fn missing_key_reply(provider: Provider) -> (response: ApiResponse)
    ensures
        shows(
            response,
            Answer::Error(
                provider.spec_display_name()
                    + " API key not configured. Please add your API key in settings."@,
            ),
        ),
{
    ApiResponse::with_error(provider.missing_key_message())
}

/// What the user is told where speech is asked of the chat.
pub fn speech_reply() -> (response: ApiResponse)
    ensures
        shows(response, speech_notice()),
{
    ApiResponse::with_content("Text-to-speech conversion not yet implemented".to_owned())
}

/// Decides what an exchange with a chat provider comes to.
///
/// A response with a status of success gives the content of the answer, or
/// the error that it carries in its body. A response with a status of failure
/// gives an error that names the provider's reason where it can be found. A
/// request that could not be sent, a body that could not be read and, but for
/// Gemini, a body of success that is no JSON make the command fail or are
/// told to the user, as each provider has it.
pub fn interpret_reply(provider: Provider, exchange: Exchange) -> (result: Result<
    ApiResponse,
    String,
>)
    ensures
        shown(result, answer_of(provider, exchange)),
{
    if provider == Provider::ElevenLabs {
        return Ok(speech_reply());
    }
    match exchange {
        Exchange::SendFailed(reason) => match provider {
            Provider::Anthropic => Err(reason),
            _ => {
                let mut message: String = "Failed to send request to ".to_owned();
                message.append(provider_api_name(provider));
                message.append(" API: ");
                message.append(reason.as_str());
                Ok(ApiResponse::with_error(message))
            },
        },
        Exchange::ReadFailed(reason) => Err(reason),
        Exchange::Replied(reply) => {
            if reply.success {
                interpret_success(provider, reply)
            } else {
                Ok(ApiResponse::with_error(failure_message(provider, &reply)))
            }
        },
    }
}

/// Decides what a response with a status of success comes to.
fn interpret_success(provider: Provider, reply: Reply) -> (result: Result<ApiResponse, String>)
    ensures
        shown(result, answer_to_success(provider, reply)),
{
    match reply.json {
        Err(reason) => match provider {
            Provider::Google => Ok(
                ApiResponse::with_error(
                    prefixed("Failed to parse Gemini response: ", reason.as_str()),
                ),
            ),
            _ => Err(reason),
        },
        Ok(json) => match provider {
            Provider::Anthropic => Ok(
                ApiResponse::with_content(or_fallback(&json.content_text, "").to_owned()),
            ),
            Provider::OpenAi => Ok(
                ApiResponse::with_content(or_fallback(&json.choice_text, "").to_owned()),
            ),
            Provider::Perplexity => Ok(
                ApiResponse::with_content(or_fallback(&json.choice_text, "").to_owned()),
            ),
            Provider::Xai => {
                if rate_limit_error(&json) {
                    Ok(
                        ApiResponse::with_error(
                            "Rate limit exceeded for Grok. Please try again later.".to_owned(),
                        ),
                    )
                } else {
                    Ok(ApiResponse::with_content(or_fallback(&json.choice_text, "").to_owned()))
                }
            },
            Provider::Google => {
                if json.has_error {
                    let message: &str = or_fallback(&json.error_message, "Unknown error");
                    if rate_limit_message(message) {
                        Ok(
                            ApiResponse::with_error(
                                "Rate limit exceeded for Gemini API. Please try again in about an hour.".to_owned(),
                            ),
                        )
                    } else {
                        Ok(ApiResponse::with_error(prefixed("API Error: ", message)))
                    }
                } else {
                    match json.candidate_text {
                        Some(text) => Ok(ApiResponse::with_content(text)),
                        None => Ok(
                            ApiResponse::with_error(
                                "Could not parse Gemini response structure".to_owned(),
                            ),
                        ),
                    }
                }
            },
            Provider::ElevenLabs => Ok(speech_reply()),
        },
    }
}

/// The error that the user is told for a response with a status of failure.
fn failure_message(provider: Provider, reply: &Reply) -> (message: String)
    ensures
        answer_to_failure(provider, *reply) == Answer::Error(message@),
{
    match provider {
        Provider::OpenAi => {
            let reason: &str = match &reply.json {
                Ok(json) => or_fallback(&json.error_message, "Unknown error occurred"),
                Err(_) => "Unknown error occurred",
            };
            prefixed("OpenAI API Error: ", reason)
        },
        Provider::Xai => {
            let limited: bool = match &reply.json {
                Ok(json) => rate_limit_error(json),
                Err(_) => false,
            };
            if limited {
                "Rate limit exceeded for Grok. Please try again later.".to_owned()
            } else {
                prefixed("API Error: ", reply.body.as_str())
            }
        },
        Provider::Google => {
            match &reply.json {
                Ok(json) => {
                    if json.has_error {
                        let reason: &str = or_fallback(&json.error_message, "Unknown error");
                        if rate_limit_message(reason) {
                            return "Rate limit exceeded for Gemini API. Please try again in about an hour.".to_owned();
                        }
                        return prefixed("Gemini API Error: ", reason);
                    }
                },
                Err(_) => {},
            }
            let mut message: String = "Gemini API request failed with status ".to_owned();
            message.append(reply.status.as_str());
            message.append(": ");
            message.append(reply.body.as_str());
            message
        },
        _ => prefixed("API Error: ", reply.body.as_str()),
    }
}

/// What a check of a provider's key found.
#[derive(Clone, Debug, PartialEq, Eq)]
pub enum KeyCheck {
    /// The provider took the key.
    Accepted,
    /// The provider did not take the key, or could not be asked; the text
    /// says why.
    Rejected(String),
}

/// A key check as a value.
pub enum KeyCheckView {
    Accepted,
    Rejected(Seq<char>),
}

impl View for KeyCheck {
    type V = KeyCheckView;

    open spec fn view(&self) -> KeyCheckView {
        match self {
            KeyCheck::Accepted => KeyCheckView::Accepted,
            KeyCheck::Rejected(reason) => KeyCheckView::Rejected(reason@),
        }
    }
}

/// What an exchange that tries a key comes to. A request to Grok or Gemini
/// that could not be sent counts as a rejection; for the others the command
/// fails.
pub open spec fn key_check_of(provider: Provider, exchange: Exchange) -> Result<
    KeyCheckView,
    Seq<char>,
> {
    match exchange {
        Exchange::SendFailed(reason) => match provider {
            Provider::Xai => Ok(KeyCheckView::Rejected(reason@)),
            Provider::Google => Ok(KeyCheckView::Rejected(reason@)),
            _ => Err(reason@),
        },
        Exchange::ReadFailed(reason) => Err(reason@),
        Exchange::Replied(reply) => if reply.success {
            Ok(KeyCheckView::Accepted)
        } else {
            Ok(KeyCheckView::Rejected(reply.body@))
        },
    }
}

/// Decides what an exchange that tries a key comes to: the key is accepted
/// if the provider answers with success, and rejected with the body of the
/// answer as the reason if not.
pub fn interpret_key_check(provider: Provider, exchange: Exchange) -> (result: Result<
    KeyCheck,
    String,
>)
    ensures
        match result {
            Ok(check) => key_check_of(provider, exchange) == Ok::<_, Seq<char>>(check@),
            Err(reason) => key_check_of(provider, exchange) == Err::<KeyCheckView, _>(reason@),
        },
{
    match exchange {
        Exchange::SendFailed(reason) => match provider {
            Provider::Xai => Ok(KeyCheck::Rejected(reason)),
            Provider::Google => Ok(KeyCheck::Rejected(reason)),
            _ => Err(reason),
        },
        Exchange::ReadFailed(reason) => Err(reason),
        Exchange::Replied(reply) => {
            if reply.success {
                Ok(KeyCheck::Accepted)
            } else {
                Ok(KeyCheck::Rejected(reply.body))
            }
        },
    }
}

/// What the user is told where a key is to be checked for a provider that is
/// not known.
pub fn unsupported_provider_check() -> (check: KeyCheck)
    ensures
        check@ == KeyCheckView::Rejected("Unsupported provider"@),
{
    KeyCheck::Rejected("Unsupported provider".to_owned())
}

} // verus!
