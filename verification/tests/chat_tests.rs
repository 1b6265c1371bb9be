use corner::chat::{
    interpret_key_check, interpret_reply, missing_key_reply, provider_api_name, speech_reply,
    unsupported_provider_check, unsupported_provider_reply, Exchange, KeyCheck, Reply, ReplyJson,
};
use corner::keys::Provider;
use corner::models::ApiResponse;

const CHAT_PROVIDERS: [Provider; 5] = [
    Provider::Anthropic,
    Provider::OpenAi,
    Provider::Perplexity,
    Provider::Google,
    Provider::Xai,
];

fn no_json() -> ReplyJson {
    ReplyJson {
        content_text: None,
        choice_text: None,
        candidate_text: None,
        has_error: false,
        error_is_object: false,
        error_message: None,
        error_type: None,
    }
}

fn error_json(message: Option<&str>, kind: Option<&str>) -> ReplyJson {
    ReplyJson {
        has_error: true,
        error_is_object: true,
        error_message: message.map(String::from),
        error_type: kind.map(String::from),
        ..no_json()
    }
}

fn replied(success: bool, json: Result<ReplyJson, String>) -> Exchange {
    Exchange::Replied(Reply {
        success,
        status: if success { "200 OK".to_string() } else { "503 Service Unavailable".to_string() },
        body: "the body".to_string(),
        json,
    })
}

fn content(text: &str) -> Result<ApiResponse, String> {
    Ok(ApiResponse::with_content(text.to_string()))
}

fn error(text: &str) -> Result<ApiResponse, String> {
    Ok(ApiResponse::with_error(text.to_string()))
}

#[test]
fn unknown_provider_and_missing_key_are_told() {
    assert_eq!(unsupported_provider_reply("mistral"), error("Unsupported provider: mistral").unwrap());
    assert_eq!(
        missing_key_reply(Provider::Google),
        error("Google API key not configured. Please add your API key in settings.").unwrap()
    );
}

#[test]
fn interfaces_have_their_names() {
    assert_eq!(provider_api_name(Provider::Anthropic), "Anthropic");
    assert_eq!(provider_api_name(Provider::OpenAi), "OpenAI");
    assert_eq!(provider_api_name(Provider::Perplexity), "Perplexity");
    assert_eq!(provider_api_name(Provider::Google), "Gemini");
    assert_eq!(provider_api_name(Provider::Xai), "Grok");
    assert_eq!(provider_api_name(Provider::ElevenLabs), "ElevenLabs");
}

#[test]
fn request_that_could_not_be_sent() {
    let failed = || Exchange::SendFailed("no route to host".to_string());
    assert_eq!(interpret_reply(Provider::Anthropic, failed()), Err("no route to host".to_string()));
    assert_eq!(
        interpret_reply(Provider::OpenAi, failed()),
        error("Failed to send request to OpenAI API: no route to host")
    );
    assert_eq!(
        interpret_reply(Provider::Perplexity, failed()),
        error("Failed to send request to Perplexity API: no route to host")
    );
    assert_eq!(
        interpret_reply(Provider::Google, failed()),
        error("Failed to send request to Gemini API: no route to host")
    );
    assert_eq!(
        interpret_reply(Provider::Xai, failed()),
        error("Failed to send request to Grok API: no route to host")
    );
}

#[test]
fn body_that_could_not_be_read_fails_the_command() {
    for provider in CHAT_PROVIDERS {
        assert_eq!(
            interpret_reply(provider, Exchange::ReadFailed("connection closed".to_string())),
            Err("connection closed".to_string())
        );
    }
}

#[test]
fn answer_of_success_is_the_content() {
    let anthropic = ReplyJson { content_text: Some("an answer".to_string()), ..no_json() };
    assert_eq!(interpret_reply(Provider::Anthropic, replied(true, Ok(anthropic))), content("an answer"));
    for provider in [Provider::OpenAi, Provider::Perplexity, Provider::Xai] {
        let json = ReplyJson { choice_text: Some("a choice".to_string()), ..no_json() };
        assert_eq!(interpret_reply(provider, replied(true, Ok(json))), content("a choice"));
    }
    let gemini = ReplyJson { candidate_text: Some("a candidate".to_string()), ..no_json() };
    assert_eq!(interpret_reply(Provider::Google, replied(true, Ok(gemini))), content("a candidate"));
}

#[test]
fn answer_of_success_without_the_text_is_empty() {
    for provider in [Provider::Anthropic, Provider::OpenAi, Provider::Perplexity, Provider::Xai] {
        assert_eq!(interpret_reply(provider, replied(true, Ok(no_json()))), content(""));
    }
    assert_eq!(
        interpret_reply(Provider::Google, replied(true, Ok(no_json()))),
        error("Could not parse Gemini response structure")
    );
}

#[test]
fn each_provider_reads_its_own_member() {
    let json = || ReplyJson {
        content_text: Some("content".to_string()),
        choice_text: Some("choice".to_string()),
        candidate_text: Some("candidate".to_string()),
        ..no_json()
    };
    assert_eq!(interpret_reply(Provider::Anthropic, replied(true, Ok(json()))), content("content"));
    assert_eq!(interpret_reply(Provider::OpenAi, replied(true, Ok(json()))), content("choice"));
    assert_eq!(interpret_reply(Provider::Google, replied(true, Ok(json()))), content("candidate"));
}

#[test]
fn body_of_success_that_is_no_json() {
    let broken = || replied(true, Err("expected value at line 1 column 1".to_string()));
    for provider in [Provider::Anthropic, Provider::OpenAi, Provider::Perplexity, Provider::Xai] {
        assert_eq!(
            interpret_reply(provider, broken()),
            Err("expected value at line 1 column 1".to_string())
        );
    }
    assert_eq!(
        interpret_reply(Provider::Google, broken()),
        error("Failed to parse Gemini response: expected value at line 1 column 1")
    );
}

#[test]
fn gemini_error_in_a_body_of_success() {
    let quota = error_json(Some("Quota: resource exhausted, retry later"), None);
    assert_eq!(
        interpret_reply(Provider::Google, replied(true, Ok(quota))),
        error("Rate limit exceeded for Gemini API. Please try again in about an hour.")
    );
    let limit = error_json(Some("rate limit exceeded"), None);
    assert_eq!(
        interpret_reply(Provider::Google, replied(true, Ok(limit))),
        error("Rate limit exceeded for Gemini API. Please try again in about an hour.")
    );
    let other = error_json(Some("API key not valid"), None);
    assert_eq!(
        interpret_reply(Provider::Google, replied(true, Ok(other))),
        error("API Error: API key not valid")
    );
    let silent = ReplyJson { candidate_text: Some("ignored".to_string()), ..error_json(None, None) };
    assert_eq!(
        interpret_reply(Provider::Google, replied(true, Ok(silent))),
        error("API Error: Unknown error")
    );
    // The words must be in lower case.
    let shouting = error_json(Some("Rate Limit Exceeded"), None);
    assert_eq!(
        interpret_reply(Provider::Google, replied(true, Ok(shouting))),
        error("API Error: Rate Limit Exceeded")
    );
}

#[test]
fn grok_rate_limit_goes_by_the_type_of_the_error() {
    let limited = || error_json(Some("slow down"), Some("rate_limit_exceeded"));
    assert_eq!(
        interpret_reply(Provider::Xai, replied(true, Ok(limited()))),
        error("Rate limit exceeded for Grok. Please try again later.")
    );
    assert_eq!(
        interpret_reply(Provider::Xai, replied(false, Ok(limited()))),
        error("Rate limit exceeded for Grok. Please try again later.")
    );
    let other = ReplyJson { choice_text: Some("fine".to_string()), ..error_json(None, Some("other")) };
    assert_eq!(interpret_reply(Provider::Xai, replied(true, Ok(other))), content("fine"));
    let untyped = error_json(Some("rate_limit_exceeded"), None);
    assert_eq!(interpret_reply(Provider::Xai, replied(false, Ok(untyped))), error("API Error: the body"));
    // An error that is no object has no type.
    let text = ReplyJson {
        error_is_object: false,
        ..error_json(None, Some("rate_limit_exceeded"))
    };
    assert_eq!(interpret_reply(Provider::Xai, replied(false, Ok(text))), error("API Error: the body"));
    assert_eq!(
        interpret_reply(Provider::Xai, replied(false, Err("no json".to_string()))),
        error("API Error: the body")
    );
}

#[test]
fn answer_of_failure_names_the_reason() {
    for provider in [Provider::Anthropic, Provider::Perplexity] {
        let json = error_json(Some("overloaded"), Some("rate_limit_exceeded"));
        assert_eq!(interpret_reply(provider, replied(false, Ok(json))), error("API Error: the body"));
        assert_eq!(
            interpret_reply(provider, replied(false, Err("no json".to_string()))),
            error("API Error: the body")
        );
    }
    assert_eq!(
        interpret_reply(Provider::OpenAi, replied(false, Ok(error_json(Some("bad key"), None)))),
        error("OpenAI API Error: bad key")
    );
    assert_eq!(
        interpret_reply(Provider::OpenAi, replied(false, Ok(no_json()))),
        error("OpenAI API Error: Unknown error occurred")
    );
    assert_eq!(
        interpret_reply(Provider::OpenAi, replied(false, Err("no json".to_string()))),
        error("OpenAI API Error: Unknown error occurred")
    );
}

#[test]
fn gemini_answer_of_failure() {
    assert_eq!(
        interpret_reply(Provider::Google, replied(false, Ok(error_json(Some("bad key"), None)))),
        error("Gemini API Error: bad key")
    );
    assert_eq!(
        interpret_reply(Provider::Google, replied(false, Ok(error_json(None, None)))),
        error("Gemini API Error: Unknown error")
    );
    assert_eq!(
        interpret_reply(
            Provider::Google,
            replied(false, Ok(error_json(Some("resource exhausted"), None)))
        ),
        error("Rate limit exceeded for Gemini API. Please try again in about an hour.")
    );
    assert_eq!(
        interpret_reply(Provider::Google, replied(false, Ok(no_json()))),
        error("Gemini API request failed with status 503 Service Unavailable: the body")
    );
    assert_eq!(
        interpret_reply(Provider::Google, replied(false, Err("no json".to_string()))),
        error("Gemini API request failed with status 503 Service Unavailable: the body")
    );
}

#[test]
fn key_is_accepted_on_success_and_rejected_with_the_body() {
    for provider in CHAT_PROVIDERS {
        assert_eq!(interpret_key_check(provider, replied(true, Ok(no_json()))), Ok(KeyCheck::Accepted));
        assert_eq!(
            interpret_key_check(provider, replied(false, Err("no json".to_string()))),
            Ok(KeyCheck::Rejected("the body".to_string()))
        );
        assert_eq!(
            interpret_key_check(provider, Exchange::ReadFailed("closed".to_string())),
            Err("closed".to_string())
        );
    }
    assert_eq!(
        interpret_key_check(Provider::ElevenLabs, replied(true, Ok(no_json()))),
        Ok(KeyCheck::Accepted)
    );
}

#[test]
fn key_check_that_could_not_be_sent() {
    let failed = || Exchange::SendFailed("offline".to_string());
    for provider in [Provider::Xai, Provider::Google] {
        assert_eq!(
            interpret_key_check(provider, failed()),
            Ok(KeyCheck::Rejected("offline".to_string()))
        );
    }
    for provider in
        [Provider::Anthropic, Provider::Perplexity, Provider::OpenAi, Provider::ElevenLabs]
    {
        assert_eq!(interpret_key_check(provider, failed()), Err("offline".to_string()));
    }
    assert_eq!(unsupported_provider_check(), KeyCheck::Rejected("Unsupported provider".to_string()));
}

#[test]
fn speech_has_no_part_in_the_chat_yet() {
    let notice = content("Text-to-speech conversion not yet implemented");
    assert_eq!(Ok(speech_reply()), notice);
    assert_eq!(interpret_reply(Provider::ElevenLabs, replied(true, Ok(no_json()))), notice);
    assert_eq!(interpret_reply(Provider::ElevenLabs, replied(false, Ok(no_json()))), notice);
    assert_eq!(
        interpret_reply(Provider::ElevenLabs, Exchange::SendFailed("offline".to_string())),
        notice
    );
}
