use storybloom::config::{resolve_api_key, validate_settings, SettingsError};
use storybloom::text::{is_blank, is_whitespace};
use storybloom::{AppSettings, DatabaseSettings, Duration, ElevenLabsSettings, WhisperSettings};

#[test]
fn whitespace_agrees_with_std_on_every_char() {
    for n in 0..=0x10FFFFu32 {
        if let Some(c) = char::from_u32(n) {
            assert_eq!(is_whitespace(c), c.is_whitespace(), "{n:#x}");
        }
    }
}

#[test]
fn is_blank_agrees_with_trim() {
    for s in ["", " ", "\t\n\r", "\u{3000}\u{2028}", "a", " a ", "\u{200B}"] {
        assert_eq!(is_blank(s), s.trim().is_empty(), "{s:?}");
    }
}

#[test]
fn duration_agrees_with_std() {
    let cases = [(0u64, 0u32), (1, 500_000_000), (3_661, 1_000_000), (u64::MAX, 999_999_999)];
    for (secs, nanos) in cases {
        let ours = Duration::new(secs, nanos);
        let std_d = std::time::Duration::new(secs, nanos);
        assert_eq!(ours.as_secs(), std_d.as_secs());
        assert_eq!(ours.subsec_nanos(), std_d.subsec_nanos());
        assert_eq!(ours.as_millis(), std_d.as_millis());
        for rhs in [0u32, 1, 2, 7, 1_000, u32::MAX] {
            let a = ours.saturating_mul(rhs);
            let b = std_d.saturating_mul(rhs);
            assert_eq!((a.as_secs(), a.subsec_nanos()), (b.as_secs(), b.subsec_nanos()));
        }
    }
    assert_eq!(Duration::from_millis(1_500).as_millis(), 1_500);
    assert_eq!(Duration::new(1, 2_500_000_000), Duration::new(3, 500_000_000));
    let short = Duration::from_secs(1);
    assert_eq!(short.min(Duration::from_secs(2)), short);
    assert_eq!(Duration::from_secs(3).min(short), short);
}

fn settings() -> (AppSettings, DatabaseSettings, ElevenLabsSettings, WhisperSettings) {
    (
        AppSettings { name: "StoryBloom Studio".to_string(), environment: "development".to_string() },
        DatabaseSettings {
            file_name: "storybloom.db".to_string(),
            max_connections: 5,
            run_migrations_on_startup: true,
        },
        ElevenLabsSettings {
            base_url: "https://api.elevenlabs.io/v1".to_string(),
            voice_id: "voice".to_string(),
            model_id: "eleven_multilingual_v2".to_string(),
            output_format: "mp3_44100_128".to_string(),
            api_key: String::new(),
            request_timeout_seconds: 60,
            max_retries: 3,
            retry_base_delay_ms: 500,
            output_dir: "output/audio".to_string(),
        },
        WhisperSettings {
            model_path: "models/ggml-base.en.bin".to_string(),
            language: "en".to_string(),
            threads: 4,
        },
    )
}

#[test]
fn validate_settings_accepts_sane_settings() {
    let (app, db, el, wh) = settings();
    assert_eq!(validate_settings(&app, &db, true, true, 800, 30, &el, &wh), Ok(()));
}

#[test]
fn validate_settings_reports_the_first_failure() {
    let (mut app, mut db, el, mut wh) = settings();
    wh.threads = 0;
    assert_eq!(
        validate_settings(&app, &db, true, true, 800, 30, &el, &wh),
        Err(SettingsError::ThreadsZero)
    );
    assert_eq!(
        validate_settings(&app, &db, true, false, 800, 30, &el, &wh),
        Err(SettingsError::TemperatureOutOfRange)
    );
    db.max_connections = 0;
    app.name = "  ".to_string();
    let err = validate_settings(&app, &db, false, false, 0, 0, &el, &wh).unwrap_err();
    assert_eq!(err, SettingsError::AppNameEmpty);
    assert_eq!(err.message(), "app.name must not be empty");
    assert_eq!(
        SettingsError::LanguageEmpty.message(),
        "whisper.language must not be empty (use \"auto\" to auto-detect)"
    );
}

#[test]
fn configured_api_key_wins_over_fallback() {
    assert_eq!(resolve_api_key("sk-1".to_string(), Some("sk-2".to_string())), "sk-1");
    assert_eq!(resolve_api_key(" ".to_string(), Some("sk-2".to_string())), "sk-2");
    assert_eq!(resolve_api_key(String::new(), None), "");
}

#[test]
fn same_text_compares_characters() {
    assert!(storybloom::text::same_text("auto", "auto"));
    assert!(!storybloom::text::same_text("auto", "Auto"));
    assert!(!storybloom::text::same_text("auto", "autos"));
}

#[test]
fn api_error_message_prefers_the_parsed_message() {
    assert_eq!(storybloom::services::http::api_error_message(Some("bad key".to_string()), b"{}"), "bad key");
    assert_eq!(storybloom::services::http::api_error_message(None, b"oops \xff"), "oops \u{FFFD}");
}

#[test]
fn core_error_messages_match_their_display_text() {
    assert_eq!(
        storybloom::CoreError::ElevenLabsApi { status: 429, message: "slow down".to_string() }.message(),
        "ElevenLabs API returned an error (HTTP 429): slow down"
    );
    assert_eq!(
        storybloom::CoreError::OpenAiApi { status: 500, message: "boom".to_string() }.message(),
        "OpenAI API returned an error (HTTP 500): boom"
    );
    assert_eq!(storybloom::CoreError::Validation("x".to_string()).message(), "validation failed: x");
    assert_eq!(
        storybloom::CoreError::MissingApiKey.message(),
        "no OpenAI API key configured - set `ai.api_key`, STORYBLOOM__AI__API_KEY, or OPENAI_API_KEY"
    );
    assert_eq!(
        storybloom::CoreError::Other(anyhow::Error::msg("custom")).message(),
        "custom"
    );
}
