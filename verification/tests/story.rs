use storybloom::models::story::HashtagError;
use storybloom::services::openai_client::{
    ChatCompletionChoice, ChatCompletionResponse, ChatCompletionResponseMessage, ChatRole,
    OpenAiClient,
};
use storybloom::services::story_engine::{build_chat_messages, check_api_key, first_choice_content};
use storybloom::{CoreError, Duration, Hashtag, StoryDuration, StoryRequest, StoryType, Tone};

#[test]
fn hashtag_normalizes_missing_prefix() {
    let tag = Hashtag::try_from("adventure".to_string()).unwrap();
    assert_eq!(tag.as_str(), "#adventure");
}

#[test]
fn hashtag_keeps_existing_prefix() {
    let tag = Hashtag::try_from("#adventure".to_string()).unwrap();
    assert_eq!(tag.as_str(), "#adventure");
}

#[test]
fn hashtag_rejects_whitespace() {
    assert!(Hashtag::try_from("not a tag".to_string()).is_err());
}

#[test]
fn hashtag_rejects_empty() {
    assert!(Hashtag::try_from("#".to_string()).is_err());
    assert!(Hashtag::try_from(String::new()).is_err());
}

#[test]
fn story_type_displays_custom_label_verbatim() {
    let story_type = StoryType::Custom("Cyberpunk Noir".to_string());
    assert_eq!(story_type.to_string(), "Cyberpunk Noir");
}

#[test]
fn hashtag_trims_surrounding_whitespace() {
    let tag = Hashtag::try_from("  #dragons\t\n".to_string()).unwrap();
    assert_eq!(tag.as_str(), "#dragons");
}

#[test]
fn hashtag_rejects_stray_hash_and_reports_the_raw_value() {
    match Hashtag::try_from("##double".to_string()) {
        Err(HashtagError::InvalidCharacters(raw)) => assert_eq!(raw, "##double"),
        other => panic!("unexpected {other:?}"),
    }
    match Hashtag::try_from(" a#b ".to_string()) {
        Err(HashtagError::InvalidCharacters(raw)) => assert_eq!(raw, " a#b "),
        other => panic!("unexpected {other:?}"),
    }
}

#[test]
fn hashtag_blank_input_is_empty_error() {
    assert!(matches!(Hashtag::try_from("   ".to_string()), Err(HashtagError::Empty)));
    assert!(matches!(Hashtag::try_from("  #  ".to_string()), Err(HashtagError::Empty)));
}

#[test]
fn hashtag_normalizing_twice_changes_nothing() {
    let once = Hashtag::try_from(" \u{3000}#ünïcode\u{2003}".to_string()).unwrap();
    assert_eq!(once.as_str(), "#ünïcode");
    let twice = Hashtag::try_from(once.as_str().to_string()).unwrap();
    assert_eq!(once, twice);
    let back: String = twice.into();
    assert_eq!(back, "#ünïcode");
}

#[test]
fn story_labels_match_their_display_text() {
    assert_eq!(StoryType::SciFi.to_string(), "Science Fiction");
    assert_eq!(StoryType::Adventure.to_string(), "Adventure");
    assert_eq!(Tone::Melancholic.to_string(), "Melancholic");
    assert_eq!(Tone::Custom("Wry".to_string()).to_string(), "Wry");
    assert_eq!(StoryDuration::Short.to_string(), "short (~30-60s)");
    assert_eq!(StoryDuration::Medium.to_string(), "medium (~2-3 min)");
    assert_eq!(StoryDuration::Long.to_string(), "long (~5-8 min)");
}

#[test]
fn duration_presets_map_to_seconds_and_words() {
    assert_eq!(StoryDuration::Short.approx_seconds(), 45);
    assert_eq!(StoryDuration::Medium.approx_seconds(), 150);
    assert_eq!(StoryDuration::Long.approx_seconds(), 420);
    assert_eq!(StoryDuration::Short.target_word_count(), (60, 130));
    assert_eq!(StoryDuration::Medium.target_word_count(), (250, 450));
    assert_eq!(StoryDuration::Long.target_word_count(), (700, 1200));
    for d in [StoryDuration::Short, StoryDuration::Medium, StoryDuration::Long] {
        let (lo, hi) = d.target_word_count();
        let spoken = d.approx_seconds() * 150 / 60;
        assert!(lo <= spoken && spoken <= hi);
    }
}

#[test]
fn story_request_new_keeps_its_fields() {
    let request = StoryRequest::new(StoryType::Romance, StoryDuration::Long, Tone::Serious);
    assert_eq!(request.story_type, StoryType::Romance);
    assert_eq!(request.duration, StoryDuration::Long);
    assert_eq!(request.tone, Tone::Serious);
}

#[test]
fn prompt_reflects_the_request() {
    let request = StoryRequest::new(StoryType::Horror, StoryDuration::Short, Tone::Dark);
    let messages = build_chat_messages(&request);

    assert_eq!(messages.len(), 2);
    assert!(messages[1].content.contains("Horror"));
    assert!(messages[1].content.contains("Dark"));
}

#[test]
fn prompts_are_written_out_exactly() {
    let request = StoryRequest::new(StoryType::Horror, StoryDuration::Short, Tone::Dark);
    let messages = build_chat_messages(&request);
    assert_eq!(messages[0].role, ChatRole::System);
    assert_eq!(messages[1].role, ChatRole::User);
    assert_eq!(
        messages[0].content,
        "You are StoryBloom Studio's story generation engine. You write short-form \
         stories intended to be narrated over social media video. Respond ONLY with a \
         JSON object matching the provided schema - no markdown, no commentary outside \
         the JSON. The `story` field must be approximately 60-130 words, \
         matching a short (~30-60s) narration length. `hashtags` must each start with '#' and \
         contain no spaces."
    );
    assert_eq!(
        messages[1].content,
        "Story type: Horror\nTone: Dark\nTarget duration: short (~30-60s) (60-130 words)\n\nWrite the story now."
    );
    let long = build_chat_messages(&StoryRequest::new(
        StoryType::Custom("Cozy Mystery".to_string()),
        StoryDuration::Long,
        Tone::Whimsical,
    ));
    assert!(long[0].content.contains("approximately 700-1200 words"));
    assert!(long[1].content.starts_with("Story type: Cozy Mystery\nTone: Whimsical\n"));
}

#[test]
fn story_engine_new_rejects_empty_api_key() {
    assert!(matches!(check_api_key(""), Err(CoreError::MissingApiKey)));
    assert!(matches!(check_api_key(" \t"), Err(CoreError::MissingApiKey)));
}

#[test]
fn story_engine_new_accepts_a_valid_config() {
    assert!(check_api_key("test-key").is_ok());
    let client = OpenAiClient::new(
        "https://api.openai.com/v1".to_string(),
        "test-key".to_string(),
        Duration::from_secs(30),
    );
    assert!(client.is_ok());
}

#[test]
fn completions_url_drops_trailing_slashes() {
    let client = OpenAiClient::new(
        "https://api.openai.com/v1//".to_string(),
        "k".to_string(),
        Duration::from_secs(30),
    )
    .unwrap();
    assert_eq!(client.completions_url(), "https://api.openai.com/v1/chat/completions");
    assert_eq!(client.timeout(), Duration::from_secs(30));
    assert_eq!(client.api_key(), "k");
}

#[test]
fn first_choice_content_picks_the_first_answer() {
    let message = |content: &str| ChatCompletionChoice {
        index: 0,
        message: ChatCompletionResponseMessage {
            role: "assistant".to_string(),
            content: content.to_string(),
        },
        finish_reason: Some("stop".to_string()),
    };
    let response = ChatCompletionResponse {
        id: "chatcmpl-1".to_string(),
        choices: vec![message("{\"title\":\"A\"}"), message("second")],
        usage: None,
    };
    assert_eq!(first_choice_content(&response).unwrap(), "{\"title\":\"A\"}");

    let empty = ChatCompletionResponse { id: "chatcmpl-2".to_string(), choices: vec![], usage: None };
    match first_choice_content(&empty) {
        Err(CoreError::ResponseParse(m)) => assert_eq!(m, "model returned no choices"),
        other => panic!("unexpected {other:?}"),
    }
}

#[test]
fn hashtag_error_messages_match_their_display_text() {
    assert_eq!(HashtagError::Empty.message(), "hashtag must not be empty");
    assert_eq!(
        HashtagError::InvalidCharacters("a b\n".to_string()).message(),
        "hashtag \"a b\\n\" contains whitespace or a stray '#'"
    );
}
