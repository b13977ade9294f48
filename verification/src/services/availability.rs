//! Which engines the application starts with.
//!
//! A missing API key or a missing speech-recognition model is not fatal:
//! the application starts with the affected engine unavailable. Any other
//! failure to build an engine is reported.

use vstd::prelude::*;

use crate::error::CoreError;

verus! {

/// The engines the application builds at startup.
#[derive(Debug, Clone, Copy, PartialEq, Eq, Structural)]
pub enum EngineKind {
    /// Story generation, which needs an OpenAI API key.
    Story,
    /// Narration, which needs an ElevenLabs API key.
    Voice,
    /// Subtitles, which need a speech-recognition model.
    Subtitle,
}

/// Whether `err` only says that `kind` is not configured yet.
pub open spec fn is_unconfigured(kind: EngineKind, err: CoreError) -> bool {
    match kind {
        EngineKind::Story => err is MissingApiKey,
        EngineKind::Voice => err is MissingElevenLabsApiKey,
        EngineKind::Subtitle => err is WhisperInit,
    }
}

/// The engine when it was built, nothing when it is not configured yet,
/// and the error otherwise.
pub fn optional_engine<T>(kind: EngineKind, built: Result<T, CoreError>) -> (r: Result<
    Option<T>,
    CoreError,
>)
    ensures
        match built {
            Ok(engine) => r == Ok::<Option<T>, CoreError>(Some(engine)),
            Err(err) => if is_unconfigured(kind, err) {
                r == Ok::<Option<T>, CoreError>(None)
            } else {
                r == Err::<Option<T>, CoreError>(err)
            },
        },
{
    match built {
        Ok(engine) => Ok(Some(engine)),
        Err(err) => {
            let unconfigured = match kind {
                EngineKind::Story => matches!(err, CoreError::MissingApiKey),
                EngineKind::Voice => matches!(err, CoreError::MissingElevenLabsApiKey),
                EngineKind::Subtitle => matches!(err, CoreError::WhisperInit(_)),
            };
            if unconfigured {
                Ok(None)
            } else {
                Err(err)
            }
        },
    }
}

} // verus!
