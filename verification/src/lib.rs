//! StoryBloom: the verified core of a story-to-video production pipeline.

pub mod config;
pub mod error;
pub mod models;
pub mod services;
pub mod text;
pub mod time;

pub use config::{AppSettings, DatabaseSettings, ElevenLabsSettings, LoggingSettings, WhisperSettings};
pub use error::CoreError;
pub use models::{Hashtag, HashtagError, StoryDuration, StoryRequest, StoryResult, StoryType, Tone};
pub use services::{SubtitleEngineConfig, SubtitleSegment, VoiceEngine, VoiceEngineConfig};
pub use time::Duration;
