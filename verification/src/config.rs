//! Resolved configuration values that the dictation core consumes: the
//! dictation mode, the model profile, the engine selection and the knobs
//! that tune chunking and the sidecar engines.

use vstd::prelude::*;

verus! {

/// How the global hotkey drives a session: toggle on each press, or hold to talk.
#[derive(Debug, Clone, Copy, PartialEq, Eq, Structural)]
pub enum DictationMode {
    PushToToggle,
    PushToTalk,
}

/// Latency/accuracy trade-off chosen for the recognition model.
#[derive(Debug, Clone, Copy, PartialEq, Eq, Structural)]
pub enum ModelProfile {
    Fast,
    Balanced,
}

/// Which external recognition engine the pipeline drives.
#[derive(Debug, Clone, Copy, PartialEq, Eq, Structural)]
pub enum SttEngine {
    WhisperCpp,
    FasterWhisper,
}

/// User preference for the whisper compute backend.
#[derive(Debug, Clone, Copy, PartialEq, Eq, Structural)]
pub enum WhisperBackendPreference {
    Auto,
    Cpu,
    Cuda,
}

/// Numeric precision requested from the faster-whisper engine.
#[derive(Debug, Clone, Copy, PartialEq, Eq, Structural)]
pub enum FasterWhisperComputeType {
    Auto,
    Int8,
    Float16,
    Float32,
}

/// The settings snapshot the core receives from the settings collaborator.
#[derive(Debug, Clone, PartialEq, Eq)]
pub struct AppSettings {
    pub hotkey: String,
    pub mode: DictationMode,
    pub language: String,
    pub model_profile: ModelProfile,
    pub stt_engine: SttEngine,
    pub model_path: Option<String>,
    pub microphone_id: Option<String>,
    pub mic_sensitivity_percent: u16,
    pub chunk_duration_ms: Option<u16>,
    pub partial_cadence_ms: Option<u16>,
    pub whisper_backend_preference: WhisperBackendPreference,
    pub faster_whisper_model: Option<String>,
    pub faster_whisper_compute_type: FasterWhisperComputeType,
    pub faster_whisper_beam_size: u8,
    pub clipboard_fallback: bool,
    pub launch_at_startup: bool,
}

pub fn default_mic_sensitivity_percent() -> (r: u16)
    ensures
        r == 170u16,
{
    170
}

pub fn default_whisper_backend_preference() -> (r: WhisperBackendPreference)
    ensures
        r == WhisperBackendPreference::Auto,
{
    WhisperBackendPreference::Auto
}

pub fn default_stt_engine() -> (r: SttEngine)
    ensures
        r == SttEngine::WhisperCpp,
{
    SttEngine::WhisperCpp
}

pub fn default_faster_whisper_compute_type() -> (r: FasterWhisperComputeType)
    ensures
        r == FasterWhisperComputeType::Auto,
{
    FasterWhisperComputeType::Auto
}

pub fn default_faster_whisper_beam_size() -> (r: u8)
    ensures
        r == 1u8,
{
    1
}

/// Field-by-field description of the default settings, used by contracts
/// that need to talk about a freshly constructed [`AppSettings`].
pub open spec fn is_default_settings(s: AppSettings) -> bool {
    &&& s.hotkey@ == "CtrlOrCmd+Shift+U"@
    &&& s.mode == DictationMode::PushToToggle
    &&& s.language@ == "en"@
    &&& s.model_profile == ModelProfile::Balanced
    &&& s.stt_engine == SttEngine::WhisperCpp
    &&& s.model_path is None
    &&& s.microphone_id is None
    &&& s.mic_sensitivity_percent == 170u16
    &&& s.chunk_duration_ms is None
    &&& s.partial_cadence_ms is None
    &&& s.whisper_backend_preference == WhisperBackendPreference::Auto
    &&& s.faster_whisper_model is None
    &&& s.faster_whisper_compute_type == FasterWhisperComputeType::Auto
    &&& s.faster_whisper_beam_size == 1u8
    &&& s.clipboard_fallback == true
    &&& s.launch_at_startup == false
}

impl Default for AppSettings {
    fn default() -> (r: Self)
        ensures
            is_default_settings(r),
    {
        AppSettings {
            hotkey: String::from_str("CtrlOrCmd+Shift+U"),
            mode: DictationMode::PushToToggle,
            language: String::from_str("en"),
            model_profile: ModelProfile::Balanced,
            stt_engine: default_stt_engine(),
            model_path: None,
            microphone_id: None,
            mic_sensitivity_percent: default_mic_sensitivity_percent(),
            chunk_duration_ms: None,
            partial_cadence_ms: None,
            whisper_backend_preference: default_whisper_backend_preference(),
            faster_whisper_model: None,
            faster_whisper_compute_type: default_faster_whisper_compute_type(),
            faster_whisper_beam_size: default_faster_whisper_beam_size(),
            clipboard_fallback: true,
            launch_at_startup: false,
        }
    }
}

} // verus!
