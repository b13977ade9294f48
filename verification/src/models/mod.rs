//! Domain models: plain data types representing StoryBloom's domain.

pub mod story;

pub use story::{Hashtag, HashtagError, StoryDuration, StoryRequest, StoryResult, StoryType, Tone};
