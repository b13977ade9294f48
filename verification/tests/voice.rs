use storybloom::services::voice_engine::{
    backoff_delay, is_retryable, retry_after_failure, sanitize_file_stem, RetryStep,
};
use storybloom::{CoreError, Duration, VoiceEngine, VoiceEngineConfig};

fn test_config() -> VoiceEngineConfig {
    VoiceEngineConfig {
        base_url: "https://api.elevenlabs.io/v1".to_string(),
        api_key: "test-key".to_string(),
        voice_id: "21m00Tcm4TlvDq8ikWAM".to_string(),
        model_id: "eleven_multilingual_v2".to_string(),
        output_format: "mp3_44100_128".to_string(),
        request_timeout: Duration::from_secs(30),
        output_dir: "output/audio".to_string(),
        max_retries: 3,
        retry_base_delay: Duration::from_millis(250),
    }
}

#[test]
fn voice_engine_new_rejects_empty_api_key() {
    let mut config = test_config();
    config.api_key = String::new();
    assert!(matches!(
        VoiceEngine::new(config),
        Err(CoreError::MissingElevenLabsApiKey)
    ));
}

#[test]
fn new_rejects_empty_voice_id() {
    let mut config = test_config();
    config.voice_id = String::new();
    assert!(matches!(VoiceEngine::new(config), Err(CoreError::Validation(_))));
}

#[test]
fn voice_engine_new_accepts_a_valid_config() {
    assert!(VoiceEngine::new(test_config()).is_ok());
}

#[test]
fn voice_engine_keeps_its_config_and_builds_the_speech_url() {
    let engine = VoiceEngine::new(test_config()).unwrap();
    assert_eq!(engine.config().max_retries, 3);
    assert_eq!(engine.client().base_url(), "https://api.elevenlabs.io/v1");
    assert_eq!(engine.client().api_key(), "test-key");
    assert_eq!(engine.client().timeout(), Duration::from_secs(30));
    assert_eq!(
        engine.client().speech_url("voice", "mp3_44100_128"),
        "https://api.elevenlabs.io/v1/text-to-speech/voice?output_format=mp3_44100_128"
    );
}

#[test]
fn generate_speech_rejects_empty_text() {
    let result = VoiceEngine::check_text("   ");
    assert!(matches!(result, Err(CoreError::Validation(_))));
    assert!(VoiceEngine::check_text("Once upon a time").is_ok());
}

#[test]
fn sanitize_file_stem_strips_unsafe_characters() {
    assert_eq!(sanitize_file_stem("my story/../evil"), "my_story___evil");
    assert_eq!(sanitize_file_stem("../../etc/passwd"), "______etc_passwd");
    assert_eq!(sanitize_file_stem(""), "narration");
    assert_eq!(sanitize_file_stem("___"), "narration");
}

#[test]
fn sanitize_file_stem_shortens_only_an_inner_parent_step() {
    assert_eq!(sanitize_file_stem("a/////b"), "a_____b");
    assert_eq!(sanitize_file_stem("a..b"), "a__b");
    assert_eq!(sanitize_file_stem("x/../y"), "x___y");
    assert_eq!(sanitize_file_stem("x/../y/../z"), "x___y___z");
    assert_eq!(sanitize_file_stem("x/../"), "x____");
    assert_eq!(sanitize_file_stem("/../y"), "____y");
    assert_eq!(sanitize_file_stem("x //../y"), "x______y");
}

#[test]
fn sanitize_file_stem_keeps_unicode_letters() {
    assert_eq!(sanitize_file_stem("über-fox_2"), "über-fox_2");
    assert_eq!(VoiceEngine::audio_file_name("a b"), "a_b.mp3");
    assert_eq!(VoiceEngine::audio_file_name("..."), "narration.mp3");
}

#[test]
fn backoff_delay_grows_exponentially_and_caps() {
    let base = Duration::from_millis(100);
    assert_eq!(backoff_delay(base, 0), Duration::from_millis(100));
    assert_eq!(backoff_delay(base, 1), Duration::from_millis(200));
    assert_eq!(backoff_delay(base, 2), Duration::from_millis(400));
    assert_eq!(backoff_delay(Duration::from_secs(10), 5), Duration::from_secs(30));
}

#[test]
fn backoff_delay_saturates_for_huge_attempts() {
    assert_eq!(backoff_delay(Duration::from_millis(1), 40), Duration::from_secs(30));
    assert_eq!(backoff_delay(Duration::from_secs(0), 40), Duration::from_secs(0));
    assert_eq!(backoff_delay(Duration::max(), 1), Duration::from_secs(30));
}

#[test]
fn is_retryable_classifies_errors() {
    assert!(is_retryable(&CoreError::ElevenLabsApi {
        status: 429,
        message: String::new()
    }));
    assert!(is_retryable(&CoreError::ElevenLabsApi {
        status: 503,
        message: String::new()
    }));
    assert!(!is_retryable(&CoreError::ElevenLabsApi {
        status: 400,
        message: String::new()
    }));
    assert!(!is_retryable(&CoreError::ElevenLabsApi {
        status: 401,
        message: String::new()
    }));
    assert!(!is_retryable(&CoreError::MissingElevenLabsApiKey));
}

#[test]
fn retries_stop_after_max_retries_or_on_permanent_errors() {
    let transient = CoreError::ElevenLabsApi { status: 500, message: String::new() };
    let base = Duration::from_millis(250);
    assert_eq!(
        retry_after_failure(0, 3, base, &transient),
        RetryStep::Retry { delay: Duration::from_millis(250), next_attempt: 1 }
    );
    assert_eq!(
        retry_after_failure(2, 3, base, &transient),
        RetryStep::Retry { delay: Duration::from_millis(1_000), next_attempt: 3 }
    );
    assert_eq!(retry_after_failure(3, 3, base, &transient), RetryStep::GiveUp);
    let permanent = CoreError::ElevenLabsApi { status: 404, message: String::new() };
    assert_eq!(retry_after_failure(0, 3, base, &permanent), RetryStep::GiveUp);
    let engine = VoiceEngine::new(test_config()).unwrap();
    assert_eq!(
        engine.after_failure(1, &transient),
        RetryStep::Retry { delay: Duration::from_millis(500), next_attempt: 2 }
    );
}
