use storybloom::services::subtitle_engine::{collect_segments, format_srt_timestamp, render_srt, RawSegment};
use storybloom::{CoreError, Duration, SubtitleEngineConfig, SubtitleSegment};

#[test]
fn format_srt_timestamp_formats_correctly() {
    assert_eq!(format_srt_timestamp(Duration::from_millis(0)), "00:00:00,000");
    assert_eq!(format_srt_timestamp(Duration::from_millis(1_234)), "00:00:01,234");
    assert_eq!(
        format_srt_timestamp(Duration::from_millis(3_661_001)),
        "01:01:01,001"
    );
}

#[test]
fn format_srt_timestamp_widens_hours_past_ninety_nine() {
    assert_eq!(format_srt_timestamp(Duration::from_secs(100 * 3600 + 59)), "100:00:59,000");
    assert_eq!(format_srt_timestamp(Duration::new(7, 999_999_999)), "00:00:07,999");
}

#[test]
fn write_srt_produces_expected_format() {
    let segments = vec![
        SubtitleSegment {
            index: 1,
            start: Duration::from_millis(0),
            end: Duration::from_millis(1_500),
            text: "Hello world".to_string(),
        },
        SubtitleSegment {
            index: 2,
            start: Duration::from_millis(1_500),
            end: Duration::from_millis(3_000),
            text: "Second line".to_string(),
        },
    ];

    let contents = render_srt(&segments);

    assert_eq!(
        contents,
        "1\n00:00:00,000 --> 00:00:01,500\nHello world\n\n\
         2\n00:00:01,500 --> 00:00:03,000\nSecond line\n\n"
    );
}

#[test]
fn render_srt_of_nothing_is_empty() {
    assert_eq!(render_srt(&[]), "");
}

#[test]
fn collect_segments_numbers_trims_and_drops_blank_lines() {
    let raw = vec![
        RawSegment { text: "  Once upon a time ".to_string(), t0_centis: 0, t1_centis: 150 },
        RawSegment { text: " \n ".to_string(), t0_centis: 150, t1_centis: 160 },
        RawSegment { text: "there was a fox.".to_string(), t0_centis: -5, t1_centis: 300 },
    ];
    let segments = collect_segments(&raw);
    assert_eq!(segments.len(), 2);
    assert_eq!(segments[0].index, 1);
    assert_eq!(segments[0].text, "Once upon a time");
    assert_eq!(segments[0].start, Duration::from_millis(0));
    assert_eq!(segments[0].end, Duration::from_millis(1_500));
    assert_eq!(segments[1].index, 2);
    assert_eq!(segments[1].text, "there was a fox.");
    assert_eq!(segments[1].start, Duration::from_millis(0));
    assert_eq!(segments[1].end, Duration::from_millis(3_000));
    assert_eq!(
        segments[1],
        SubtitleSegment {
            index: 2,
            start: Duration::from_millis(0),
            end: Duration::from_millis(3_000),
            text: "there was a fox.".to_string(),
        }
    );
}

fn config(model_path: &str, language: &str, threads: i32) -> SubtitleEngineConfig {
    SubtitleEngineConfig {
        model_path: model_path.to_string(),
        language: language.to_string(),
        threads,
    }
}

#[test]
fn new_rejects_missing_model_file() {
    let result = config("/nonexistent/ggml-base.en.bin", "en", 4).validate(false);
    match result {
        Err(CoreError::WhisperInit(m)) => assert_eq!(
            m,
            "model file not found at /nonexistent/ggml-base.en.bin - download a whisper.cpp GGML \
             model (e.g. ggml-base.en.bin) and point whisper.model_path at it"
        ),
        other => panic!("unexpected {other:?}"),
    }
}

#[test]
fn subtitle_config_checks_threads_then_language() {
    assert!(matches!(
        config("m.bin", "en", 0).validate(true),
        Err(CoreError::Validation(m)) if m == "whisper threads must be greater than zero"
    ));
    assert!(matches!(
        config("m.bin", "  ", 2).validate(true),
        Err(CoreError::Validation(m)) if m == "whisper language must not be empty (use \"auto\" to auto-detect)"
    ));
    assert!(config("m.bin", "auto", 2).validate(true).is_ok());
}

#[test]
fn auto_language_lets_the_recognizer_detect() {
    assert_eq!(storybloom::services::subtitle_engine::whisper_language("auto"), None);
    assert_eq!(storybloom::services::subtitle_engine::whisper_language("en"), Some("en"));
}
