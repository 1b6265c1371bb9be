use corner::completion::{
    default_safety_settings, gemini_content, gemini_contents, CompletionProvider, GeminiCandidate,
    GeminiContent, GeminiPart, GeminiResponse, GrokChoice, GrokResponse, Message,
};
use corner::files::{base64_text, can_encode, data_url_of};
use corner::models::{completion_text, select_models};

fn strings(items: &[&str]) -> Vec<String> {
    items.iter().map(|s| s.to_string()).collect()
}

#[test]
fn models_for_text_are_selected_in_order() {
    let ids = strings(&["whisper-1", "gpt-4", "text-embedding-ada-002", "dall-e-3", "chatgpt-4o"]);
    assert_eq!(select_models(ids), Ok(strings(&["gpt-4", "text-embedding-ada-002", "chatgpt-4o"])));
}

#[test]
fn no_model_for_text_is_an_error() {
    assert_eq!(
        select_models(strings(&["whisper-1", "tts-1", "GPT-4"])),
        Err("No compatible models found".to_string())
    );
    assert_eq!(select_models(Vec::new()), Err("No compatible models found".to_string()));
}

#[test]
fn completion_is_trimmed() {
    assert_eq!(completion_text(Some("\n\n Hello there. \n".to_string())), Ok("Hello there.".to_string()));
    assert_eq!(completion_text(Some(String::new())), Ok(String::new()));
    assert_eq!(completion_text(None), Err("Invalid response format".to_string()));
}

#[test]
fn completion_providers_go_by_their_names() {
    assert_eq!(CompletionProvider::parse("gemini"), Ok(CompletionProvider::Gemini));
    assert_eq!(CompletionProvider::parse("grok"), Ok(CompletionProvider::Grok));
    assert_eq!(CompletionProvider::parse("Gemini"), Err("Unsupported AI provider".to_string()));
    assert_eq!(CompletionProvider::parse(""), Err("Unsupported AI provider".to_string()));
    assert_eq!(CompletionProvider::Gemini.env_var(), "GEMINI_API_KEY");
    assert_eq!(CompletionProvider::Grok.env_var(), "GROK_API_KEY");
    assert_eq!(CompletionProvider::Gemini.missing_key_message(), "Gemini API key not configured");
    assert_eq!(CompletionProvider::Grok.missing_key_message(), "Grok API key not configured");
}

#[test]
fn messages_become_gemini_contents() {
    let message = |role: &str, content: &str| Message {
        role: role.to_string(),
        content: content.to_string(),
    };
    let content = |role: &str, text: &str| GeminiContent {
        role: role.to_string(),
        parts: vec![GeminiPart { text: text.to_string() }],
    };
    assert_eq!(gemini_content(&message("user", "hi")), content("user", "hi"));
    assert_eq!(
        gemini_contents(&vec![
            message("user", "hi"),
            message("assistant", "hello"),
            message("system", "be kind"),
            message("User", "bye"),
        ]),
        vec![
            content("user", "hi"),
            content("model", "hello"),
            content("model", "be kind"),
            content("model", "bye"),
        ]
    );
    assert_eq!(gemini_contents(&Vec::new()), Vec::new());
}

#[test]
fn four_harm_categories_are_blocked_from_medium() {
    let settings = default_safety_settings();
    let categories: Vec<&str> = settings.iter().map(|s| s.category.as_str()).collect();
    assert_eq!(
        categories,
        vec![
            "HARM_CATEGORY_HARASSMENT",
            "HARM_CATEGORY_HATE_SPEECH",
            "HARM_CATEGORY_SEXUALLY_EXPLICIT",
            "HARM_CATEGORY_DANGEROUS_CONTENT"
        ]
    );
    assert!(settings.iter().all(|s| s.threshold == "BLOCK_MEDIUM_AND_ABOVE"));
}

#[test]
fn gemini_answer_is_the_first_part_of_the_first_candidate() {
    let candidate = |texts: &[&str]| GeminiCandidate {
        content: GeminiContent {
            role: "model".to_string(),
            parts: texts.iter().map(|t| GeminiPart { text: t.to_string() }).collect(),
        },
        finish_reason: None,
        safety_ratings: None,
    };
    let response = GeminiResponse {
        candidates: vec![candidate(&["first", "second"]), candidate(&["other"])],
        prompt_feedback: None,
    };
    assert_eq!(response.first_text(), Ok("first".to_string()));
    let empty = GeminiResponse { candidates: Vec::new(), prompt_feedback: None };
    assert_eq!(empty.first_text(), Err("No response candidates from Gemini API".to_string()));
    let hollow = GeminiResponse { candidates: vec![candidate(&[])], prompt_feedback: None };
    assert_eq!(hollow.first_text(), Err("Invalid response format from Gemini API".to_string()));
}

#[test]
fn grok_answer_is_the_content_of_the_first_choice() {
    let choice = |text: &str| GrokChoice {
        message: Message { role: "assistant".to_string(), content: text.to_string() },
    };
    let response = GrokResponse { choices: vec![choice("one"), choice("two")] };
    assert_eq!(response.first_content(), Ok("one".to_string()));
    let empty = GrokResponse { choices: Vec::new() };
    assert_eq!(empty.first_content(), Err("Invalid response format from Grok API".to_string()));
}

#[test]
fn bytes_become_base64() {
    assert_eq!(base64_text(&Vec::new()), "");
    assert_eq!(base64_text(&b"f".to_vec()), "Zg==");
    assert_eq!(base64_text(&b"fo".to_vec()), "Zm8=");
    assert_eq!(base64_text(&b"foobar".to_vec()), "Zm9vYmFy");
    assert_eq!(base64_text(&vec![0xfb, 0xff]), "+/8=");
    assert_eq!(data_url_of("image/jpeg", &vec![0xff, 0xd8, 0xff]), "data:image/jpeg;base64,/9j/");
}

#[test]
fn every_vector_in_memory_can_be_encoded() {
    assert!(can_encode(&Vec::new()));
    assert!(can_encode(&vec![0u8; 1000]));
}
