//! Real-time voice-intelligence pipeline: segments a live audio stream into
//! utterances, hands each utterance to a speech-to-text engine, and forwards
//! the transcript to a rate-limited analysis service.

pub mod config;
pub mod limiter;
pub mod pipeline;
pub mod response;
pub mod stt;
pub mod segmenter;
pub mod text;
