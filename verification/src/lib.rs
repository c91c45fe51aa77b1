//! The dictation core of a local speech-to-text tool: the hotkey-driven
//! state machine, audio-format checks and decimation, voice-activity
//! detection, chunk scheduling, the sidecar engine configuration and wire
//! protocols, and transcript post-processing. Device capture, the file
//! system, clocks and the sidecar processes themselves live with the host,
//! which hands this crate plain values and carries out its decisions.

pub mod audio;
pub mod config;
pub mod environment;
pub mod insertion;
pub mod paths;
pub mod pipeline;
pub mod postprocess;
pub mod profile;
pub mod protocol;
pub mod recovery;
pub mod runtime_log;
pub mod scheduler;
pub mod settings_store;
pub mod text;
pub mod transcriber;
pub mod vad;
