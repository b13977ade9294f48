# storybloom

The verified core of StoryBloom Studio, a desktop app that turns a story
request into narrated, subtitled short-form video.

- `src/` is the library, written in Verus: every function carries a contract
  that Verus proves, except the few small wrappers around outside calls
  (the HTTP client builder, `String::push`, `char::is_alphanumeric`,
  `String::from_utf8_lossy`, `{:?}` formatting, an opaque error's message),
  whose contracts are trusted.
  - `text` - Unicode whitespace, trimming, decimal rendering.
  - `time` - spans of time (seconds + nanoseconds) with saturating arithmetic.
  - `models::story` - story types, tones, duration presets and validated
    `#hashtags`.
  - `config` - configuration values, their validation, API-key fallback and
    the choice of configuration directory.
  - `error` - the domain error.
  - `services` - the engines' own logic: prompt construction and response
    handling for story generation (`story_engine`, `openai_client`),
    configuration checks, retry policy with capped exponential backoff and
    file naming for narration (`voice_engine`, `elevenlabs_client`),
    segment collection and SRT rendering for subtitles (`subtitle_engine`),
    and which engines start when keys or models are missing
    (`availability`).
- `tests/` runs the library on concrete values.
- `app/` is the desktop program around it: configuration loading, logging,
  the database, HTTP round trips, audio decoding, speech recognition and the
  Tauri shell. It performs the I/O the library decides on.
