//! Services: business logic and the decisions around external integrations.

pub mod availability;
pub mod elevenlabs_client;
pub mod http;
pub mod openai_client;
pub mod story_engine;
pub mod subtitle_engine;
pub mod voice_engine;

pub use subtitle_engine::{SubtitleEngineConfig, SubtitleSegment};
pub use voice_engine::{VoiceEngine, VoiceEngineConfig};
