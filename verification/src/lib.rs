//! Real-time audio pipeline and streaming-recognition orchestration for live
//! subtitles: capture-session bookkeeping, mono mixing, fixed-size chunking,
//! block framing for sample-rate conversion, the endpoint-driven subtitle
//! state machine, and the session lifecycle.
//!
//! Samples are carried as a generic `T`, so the pipeline logic is independent
//! of the sample representation chosen by the caller.

pub mod asr;
pub mod buffer;
pub mod capture;
pub mod config;
pub mod devices;
pub mod lifecycle;
pub mod mixer;
pub mod online_asr;
pub mod orchestrator;
pub mod pipeline;
pub mod resample;
pub mod scan;
pub mod subtitle;
pub mod text;

pub use crate::devices::AudioDeviceInfo;
pub use crate::subtitle::SubtitleEvent;
