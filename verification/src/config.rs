//! Configuration values and their validation.
//!
//! Loading layered configuration files and environment variables happens
//! outside this crate; what is loaded is checked here so that
//! misconfiguration fails fast at startup.

use vstd::prelude::*;

use crate::text::{is_blank, spec_is_blank};

verus! {

#[derive(Debug, Clone)]
pub struct AppSettings {
    /// Human readable application name, used in window titles, logs, etc.
    pub name: String,
    /// Deployment environment: "development", "staging", "production".
    pub environment: String,
}

#[derive(Debug, Clone)]
pub struct LoggingSettings {
    /// Default log filter directive, e.g. "info" or "storybloom=debug,warn".
    pub level: String,
    /// Emit logs as newline-delimited JSON instead of human-readable text.
    pub json: bool,
    /// Whether to also write logs to a rotating file under the app data dir.
    pub file_enabled: bool,
}

#[derive(Debug, Clone)]
pub struct DatabaseSettings {
    /// SQLite file name, resolved relative to the app data directory unless
    /// an absolute path is given.
    pub file_name: String,
    pub max_connections: u32,
    pub run_migrations_on_startup: bool,
}

#[derive(Debug, Clone)]
pub struct ElevenLabsSettings {
    /// API base URL, without a trailing slash.
    pub base_url: String,
    /// Which voice to synthesize with.
    pub voice_id: String,
    /// Model identifier, e.g. "eleven_multilingual_v2".
    pub model_id: String,
    /// Requested output encoding, e.g. "mp3_44100_128".
    pub output_format: String,
    /// API key; may be left empty, with a fallback taken from elsewhere.
    pub api_key: String,
    pub request_timeout_seconds: u64,
    /// Number of retry attempts after the initial request fails, for
    /// transient errors only.
    pub max_retries: u32,
    /// Base delay for exponential backoff between retries, in milliseconds.
    pub retry_base_delay_ms: u64,
    /// Directory generated narration MP3s are saved to.
    pub output_dir: String,
}

#[derive(Debug, Clone)]
pub struct WhisperSettings {
    /// Path to a whisper.cpp GGML/GGUF model file.
    pub model_path: String,
    /// Language code (e.g. "en"), or "auto" to auto-detect.
    pub language: String,
    /// Threads used for inference.
    pub threads: u32,
}

/// The checks a configuration must pass, in the order they are made.
#[derive(Debug, Clone, Copy, PartialEq, Eq, Structural)]
pub enum SettingsError {
    AppNameEmpty,
    MaxConnectionsZero,
    WindowNotPositive,
    TemperatureOutOfRange,
    MaxOutputTokensZero,
    AiTimeoutZero,
    VoiceIdEmpty,
    OutputFormatEmpty,
    ElevenLabsTimeoutZero,
    OutputDirEmpty,
    ModelPathEmpty,
    LanguageEmpty,
    ThreadsZero,
}

impl SettingsError {
    pub open spec fn spec_message(self) -> Seq<char> {
        match self {
            SettingsError::AppNameEmpty => "app.name must not be empty"@,
            SettingsError::MaxConnectionsZero => "database.max_connections must be greater than zero"@,
            SettingsError::WindowNotPositive => "window dimensions must be positive"@,
            SettingsError::TemperatureOutOfRange => "ai.temperature must be between 0.0 and 2.0"@,
            SettingsError::MaxOutputTokensZero => "ai.max_output_tokens must be greater than zero"@,
            SettingsError::AiTimeoutZero => "ai.request_timeout_seconds must be greater than zero"@,
            SettingsError::VoiceIdEmpty => "elevenlabs.voice_id must not be empty"@,
            SettingsError::OutputFormatEmpty => "elevenlabs.output_format must not be empty"@,
            SettingsError::ElevenLabsTimeoutZero => "elevenlabs.request_timeout_seconds must be greater than zero"@,
            SettingsError::OutputDirEmpty => "elevenlabs.output_dir must not be empty"@,
            SettingsError::ModelPathEmpty => "whisper.model_path must not be empty"@,
            SettingsError::LanguageEmpty => "whisper.language must not be empty (use \"auto\" to auto-detect)"@,
            SettingsError::ThreadsZero => "whisper.threads must be greater than zero"@,
        }
    }

    /// The message reported for a failed check.
    pub fn message(&self) -> (r: &'static str)
        ensures
            r@ == self.spec_message(),
    {
        match self {
            SettingsError::AppNameEmpty => "app.name must not be empty",
            SettingsError::MaxConnectionsZero => "database.max_connections must be greater than zero",
            SettingsError::WindowNotPositive => "window dimensions must be positive",
            SettingsError::TemperatureOutOfRange => "ai.temperature must be between 0.0 and 2.0",
            SettingsError::MaxOutputTokensZero => "ai.max_output_tokens must be greater than zero",
            SettingsError::AiTimeoutZero => "ai.request_timeout_seconds must be greater than zero",
            SettingsError::VoiceIdEmpty => "elevenlabs.voice_id must not be empty",
            SettingsError::OutputFormatEmpty => "elevenlabs.output_format must not be empty",
            SettingsError::ElevenLabsTimeoutZero => "elevenlabs.request_timeout_seconds must be greater than zero",
            SettingsError::OutputDirEmpty => "elevenlabs.output_dir must not be empty",
            SettingsError::ModelPathEmpty => "whisper.model_path must not be empty",
            SettingsError::LanguageEmpty => "whisper.language must not be empty (use \"auto\" to auto-detect)",
            SettingsError::ThreadsZero => "whisper.threads must be greater than zero",
        }
    }
}

/// The first check a configuration fails, if any. The two checks on
/// floating-point values (window dimensions positive, temperature within
/// `0.0..=2.0`) enter as their outcomes.
pub open spec fn first_settings_error(
    app: AppSettings,
    database: DatabaseSettings,
    window_dimensions_positive: bool,
    temperature_in_range: bool,
    ai_max_output_tokens: u32,
    ai_request_timeout_seconds: u64,
    elevenlabs: ElevenLabsSettings,
    whisper: WhisperSettings,
) -> Option<SettingsError> {
    if spec_is_blank(app.name@) {
        Some(SettingsError::AppNameEmpty)
    } else if database.max_connections == 0 {
        Some(SettingsError::MaxConnectionsZero)
    } else if !window_dimensions_positive {
        Some(SettingsError::WindowNotPositive)
    } else if !temperature_in_range {
        Some(SettingsError::TemperatureOutOfRange)
    } else if ai_max_output_tokens == 0 {
        Some(SettingsError::MaxOutputTokensZero)
    } else if ai_request_timeout_seconds == 0 {
        Some(SettingsError::AiTimeoutZero)
    } else if spec_is_blank(elevenlabs.voice_id@) {
        Some(SettingsError::VoiceIdEmpty)
    } else if spec_is_blank(elevenlabs.output_format@) {
        Some(SettingsError::OutputFormatEmpty)
    } else if elevenlabs.request_timeout_seconds == 0 {
        Some(SettingsError::ElevenLabsTimeoutZero)
    } else if spec_is_blank(elevenlabs.output_dir@) {
        Some(SettingsError::OutputDirEmpty)
    } else if spec_is_blank(whisper.model_path@) {
        Some(SettingsError::ModelPathEmpty)
    } else if spec_is_blank(whisper.language@) {
        Some(SettingsError::LanguageEmpty)
    } else if whisper.threads == 0 {
        Some(SettingsError::ThreadsZero)
    } else {
        None
    }
}

/// Basic sanity checks on a loaded configuration, made in a fixed order;
/// the first that fails is reported. The outcomes of the two checks on
/// floating-point values (window width and height both positive, AI
/// temperature within `0.0..=2.0`) are passed in.
pub fn validate_settings(
    app: &AppSettings,
    database: &DatabaseSettings,
    window_dimensions_positive: bool,
    temperature_in_range: bool,
    ai_max_output_tokens: u32,
    ai_request_timeout_seconds: u64,
    elevenlabs: &ElevenLabsSettings,
    whisper: &WhisperSettings,
) -> (r: Result<(), SettingsError>)
    ensures
        match first_settings_error(
            *app,
            *database,
            window_dimensions_positive,
            temperature_in_range,
            ai_max_output_tokens,
            ai_request_timeout_seconds,
            *elevenlabs,
            *whisper,
        ) {
            None => r is Ok,
            Some(e) => r == Err::<(), SettingsError>(e),
        },
{
    if is_blank(app.name.as_str()) {
        return Err(SettingsError::AppNameEmpty);
    }
    if database.max_connections == 0 {
        return Err(SettingsError::MaxConnectionsZero);
    }
    if !window_dimensions_positive {
        return Err(SettingsError::WindowNotPositive);
    }
    if !temperature_in_range {
        return Err(SettingsError::TemperatureOutOfRange);
    }
    if ai_max_output_tokens == 0 {
        return Err(SettingsError::MaxOutputTokensZero);
    }
    if ai_request_timeout_seconds == 0 {
        return Err(SettingsError::AiTimeoutZero);
    }
    if is_blank(elevenlabs.voice_id.as_str()) {
        return Err(SettingsError::VoiceIdEmpty);
    }
    if is_blank(elevenlabs.output_format.as_str()) {
        return Err(SettingsError::OutputFormatEmpty);
    }
    if elevenlabs.request_timeout_seconds == 0 {
        return Err(SettingsError::ElevenLabsTimeoutZero);
    }
    if is_blank(elevenlabs.output_dir.as_str()) {
        return Err(SettingsError::OutputDirEmpty);
    }
    if is_blank(whisper.model_path.as_str()) {
        return Err(SettingsError::ModelPathEmpty);
    }
    if is_blank(whisper.language.as_str()) {
        return Err(SettingsError::LanguageEmpty);
    }
    if whisper.threads == 0 {
        return Err(SettingsError::ThreadsZero);
    }
    Ok(())
}

/// The API key to use: the configured one unless it is blank, in which case
/// the fallback (typically read from a conventional environment variable),
/// or an empty key when there is none.
pub open spec fn spec_resolve_api_key(configured: Seq<char>, fallback: Option<Seq<char>>) -> Seq<
    char,
> {
    if !spec_is_blank(configured) {
        configured
    } else {
        match fallback {
            Some(k) => k,
            None => Seq::empty(),
        }
    }
}

/// Picks the API key: the configured one unless it is blank, else the
/// fallback, else an empty key (which the engines then refuse).
pub fn resolve_api_key(configured: String, fallback: Option<String>) -> (r: String)
    ensures
        r@ == spec_resolve_api_key(
            configured@,
            match fallback {
                Some(k) => Some(k@),
                None => None,
            },
        ),
{
    if !is_blank(configured.as_str()) {
        configured
    } else {
        match fallback {
            Some(k) => k,
            None => String::new(),
        }
    }
}

/// Where the configuration directory is taken from, in order of
/// preference.
#[derive(Debug, Clone, Copy, PartialEq, Eq, Structural)]
pub enum ConfigDirSource {
    /// An explicit override given in the environment.
    Override,
    /// A `config/` directory next to the running executable.
    BesideExecutable,
    /// A macOS bundle's `Contents/Resources/config`.
    BundleResources,
    /// The development workspace's `config/` directory.
    Workspace,
}

/// Chooses the configuration directory: an explicit override always wins,
/// then a `config/` directory next to the executable, then the macOS bundle
/// layout, then the development workspace. The two candidates next to the
/// executable count only when its directory is known and they exist.
pub fn choose_config_dir(
    has_override: bool,
    beside_executable_exists: bool,
    bundle_resources_exists: bool,
) -> (r: ConfigDirSource)
    ensures
        r == (if has_override {
            ConfigDirSource::Override
        } else if beside_executable_exists {
            ConfigDirSource::BesideExecutable
        } else if bundle_resources_exists {
            ConfigDirSource::BundleResources
        } else {
            ConfigDirSource::Workspace
        }),
{
    if has_override {
        ConfigDirSource::Override
    } else if beside_executable_exists {
        ConfigDirSource::BesideExecutable
    } else if bundle_resources_exists {
        ConfigDirSource::BundleResources
    } else {
        ConfigDirSource::Workspace
    }
}

} // verus!
