//! Domain-level error type.
//!
//! Services return `Result<T, CoreError>` so callers can match on specific
//! failure modes (for example to show a validation message) rather than
//! always falling back to a generic error string. Failures raised by the
//! HTTP client, the database, the filesystem or other opaque sources are
//! carried through unchanged.

use vstd::prelude::*;

use crate::text::{decimal_chars, decimal_digits, push_chars};

verus! {

/// An error of the HTTP client (`reqwest::Error`), carried through
/// unchanged; nothing about its contents is relied on.
#[verifier::external_type_specification]
#[verifier::external_body]
pub struct ExHttpError(reqwest::Error);

/// An error of the database layer (`sqlx::Error`), carried through
/// unchanged; nothing about its contents is relied on.
#[verifier::external_type_specification]
#[verifier::external_body]
pub struct ExDatabaseError(sqlx::Error);

/// A filesystem error (`std::io::Error`), carried through unchanged;
/// nothing about its contents is relied on.
#[verifier::external_type_specification]
#[verifier::external_body]
pub struct ExIoError(std::io::Error);

/// An opaque error of any other source (`anyhow::Error`), carried through
/// unchanged; nothing about its contents is relied on.
#[verifier::external_type_specification]
#[verifier::external_body]
pub struct ExOtherError(anyhow::Error);

/// The failure modes of the services.
#[derive(Debug)]
pub enum CoreError {
    NotFound(String),
    Validation(String),
    Database(sqlx::Error),
    /// No OpenAI API key configured.
    MissingApiKey,
    OpenAiTransport(reqwest::Error),
    OpenAiApi { status: u16, message: String },
    ResponseParse(String),
    /// No ElevenLabs API key configured.
    MissingElevenLabsApiKey,
    ElevenLabsTransport(reqwest::Error),
    ElevenLabsApi { status: u16, message: String },
    Io(std::io::Error),
    WhisperInit(String),
    WhisperTranscribe(String),
    AudioDecode(String),
    Other(anyhow::Error),
}

impl CoreError {
    /// The message the error is displayed with. That of `Other` is the
    /// wrapped error's own message.
    pub open spec fn spec_message(self) -> Seq<char> {
        match self {
            CoreError::NotFound(m) => "not found: "@ + m@,
            CoreError::Validation(m) => "validation failed: "@ + m@,
            CoreError::Database(_) => "database error"@,
            CoreError::MissingApiKey => "no OpenAI API key configured - set `ai.api_key`, STORYBLOOM__AI__API_KEY, or OPENAI_API_KEY"@,
            CoreError::OpenAiTransport(_) => "failed to reach the OpenAI API"@,
            CoreError::OpenAiApi { status, message } => "OpenAI API returned an error (HTTP "@
                + decimal_digits(status as nat) + "): "@ + message@,
            CoreError::ResponseParse(m) => "failed to parse model response: "@ + m@,
            CoreError::MissingElevenLabsApiKey => "no ElevenLabs API key configured - set `elevenlabs.api_key`, STORYBLOOM__ELEVENLABS__API_KEY, or ELEVENLABS_API_KEY"@,
            CoreError::ElevenLabsTransport(_) => "failed to reach the ElevenLabs API"@,
            CoreError::ElevenLabsApi { status, message } => "ElevenLabs API returned an error (HTTP "@
                + decimal_digits(status as nat) + "): "@ + message@,
            CoreError::Io(_) => "filesystem error"@,
            CoreError::WhisperInit(m) => "failed to initialize whisper: "@ + m@,
            CoreError::WhisperTranscribe(m) => "whisper transcription failed: "@ + m@,
            CoreError::AudioDecode(m) => "failed to decode audio: "@ + m@,
            CoreError::Other(_) => Seq::empty(),
        }
    }

    /// The message the error is displayed with.
    pub fn message(&self) -> (r: String)
        ensures
            !(self is Other) ==> r@ == self.spec_message(),
    {
        match self {
            CoreError::NotFound(m) => prefixed("not found: ", m),
            CoreError::Validation(m) => prefixed("validation failed: ", m),
            CoreError::Database(_) => "database error".to_string(),
            CoreError::MissingApiKey => "no OpenAI API key configured - set `ai.api_key`, STORYBLOOM__AI__API_KEY, or OPENAI_API_KEY".to_string(),
            CoreError::OpenAiTransport(_) => "failed to reach the OpenAI API".to_string(),
            CoreError::OpenAiApi { status, message } => api_message(
                "OpenAI API returned an error (HTTP ",
                *status,
                message,
            ),
            CoreError::ResponseParse(m) => prefixed("failed to parse model response: ", m),
            CoreError::MissingElevenLabsApiKey => "no ElevenLabs API key configured - set `elevenlabs.api_key`, STORYBLOOM__ELEVENLABS__API_KEY, or ELEVENLABS_API_KEY".to_string(),
            CoreError::ElevenLabsTransport(_) => "failed to reach the ElevenLabs API".to_string(),
            CoreError::ElevenLabsApi { status, message } => api_message(
                "ElevenLabs API returned an error (HTTP ",
                *status,
                message,
            ),
            CoreError::Io(_) => "filesystem error".to_string(),
            CoreError::WhisperInit(m) => prefixed("failed to initialize whisper: ", m),
            CoreError::WhisperTranscribe(m) => prefixed("whisper transcription failed: ", m),
            CoreError::AudioDecode(m) => prefixed("failed to decode audio: ", m),
            CoreError::Other(e) => other_message(e),
        }
    }
}

/// `prefix` followed by `m`.
fn prefixed(prefix: &str, m: &String) -> (r: String)
    ensures
        r@ == prefix@ + m@,
{
    let mut r = prefix.to_string();
    r.append(m.as_str());
    r
}

/// `{prefix}{status}): {message}`.
fn api_message(prefix: &str, status: u16, message: &String) -> (r: String)
    ensures
        r@ == prefix@ + decimal_digits(status as nat) + "): "@ + message@,
{
    let mut r = prefix.to_string();
    let digits = decimal_chars(status as u128);
    push_chars(&mut r, &digits);
    r.append("): ");
    r.append(message.as_str());
    r
}

/// The message of an opaque error (`anyhow::Error`'s `Display`); nothing is
/// stated of it.
#[verifier::external_body]
fn other_message(e: &anyhow::Error) -> String {
    e.to_string()
}

} // verus!
