//! Settings patching and normalization: how a partial update is merged into
//! the current settings and how loaded settings are brought back into range.
//! Reading and writing the settings file is the host's job.

use vstd::prelude::*;

use crate::config::{
    AppSettings, DictationMode, FasterWhisperComputeType, ModelProfile, SttEngine,
    WhisperBackendPreference,
};
use crate::profile::{
    clamp_chunk_duration_ms, clamp_partial_cadence_ms, spec_clamp_chunk_duration_ms,
    spec_clamp_partial_cadence_ms,
};
use crate::text::{trim_spec, trim_str, view_opt_string};

verus! {

/// A partial settings update: every field is optional, and an explicit
/// `Some(None)` clears an optional setting.
#[derive(Debug, Clone, PartialEq, Eq)]
pub struct AppSettingsPatch {
    pub hotkey: Option<String>,
    pub mode: Option<DictationMode>,
    pub model_profile: Option<ModelProfile>,
    pub stt_engine: Option<SttEngine>,
    pub model_path: Option<Option<String>>,
    pub microphone_id: Option<Option<String>>,
    pub mic_sensitivity_percent: Option<u16>,
    pub chunk_duration_ms: Option<u16>,
    pub partial_cadence_ms: Option<u16>,
    pub whisper_backend_preference: Option<WhisperBackendPreference>,
    pub faster_whisper_model: Option<Option<String>>,
    pub faster_whisper_compute_type: Option<FasterWhisperComputeType>,
    pub faster_whisper_beam_size: Option<u8>,
    pub clipboard_fallback: Option<bool>,
    pub launch_at_startup: Option<bool>,
}

impl Default for AppSettingsPatch {
    fn default() -> (r: Self)
        ensures
            r.hotkey is None,
            r.mode is None,
            r.model_profile is None,
            r.stt_engine is None,
            r.model_path is None,
            r.microphone_id is None,
            r.mic_sensitivity_percent is None,
            r.chunk_duration_ms is None,
            r.partial_cadence_ms is None,
            r.whisper_backend_preference is None,
            r.faster_whisper_model is None,
            r.faster_whisper_compute_type is None,
            r.faster_whisper_beam_size is None,
            r.clipboard_fallback is None,
            r.launch_at_startup is None,
    {
        AppSettingsPatch {
            hotkey: None,
            mode: None,
            model_profile: None,
            stt_engine: None,
            model_path: None,
            microphone_id: None,
            mic_sensitivity_percent: None,
            chunk_duration_ms: None,
            partial_cadence_ms: None,
            whisper_backend_preference: None,
            faster_whisper_model: None,
            faster_whisper_compute_type: None,
            faster_whisper_beam_size: None,
            clipboard_fallback: None,
            launch_at_startup: None,
        }
    }
}

pub open spec fn spec_clamp_mic_sensitivity(v: u16) -> u16 {
    if v < 50 {
        50u16
    } else if v > 300 {
        300u16
    } else {
        v
    }
}

pub open spec fn spec_clamp_beam_size(v: u8) -> u8 {
    if v < 1 {
        1u8
    } else if v > 8 {
        8u8
    } else {
        v
    }
}

/// The faster-whisper model name after normalization: trimmed, and dropped
/// entirely when only whitespace is left.
pub open spec fn spec_normalized_model_name(m: Option<Seq<char>>) -> Option<Seq<char>> {
    match m {
        Some(v) => if trim_spec(v).len() > 0 {
            Some(trim_spec(v))
        } else {
            None
        },
        None => None,
    }
}

/// Whether `r` is `s` with every out-of-range field brought back into
/// range: mic sensitivity in 50..=300, chunk duration in 500..=4000,
/// cadence in 300..=2500, beam size in 1..=8, and the faster-whisper model
/// name trimmed and dropped when blank.
pub open spec fn is_normalized_of(r: AppSettings, s: AppSettings) -> bool {
    &&& r.hotkey == s.hotkey
    &&& r.mode == s.mode
    &&& r.language == s.language
    &&& r.model_profile == s.model_profile
    &&& r.stt_engine == s.stt_engine
    &&& r.model_path == s.model_path
    &&& r.microphone_id == s.microphone_id
    &&& r.mic_sensitivity_percent == spec_clamp_mic_sensitivity(s.mic_sensitivity_percent)
    &&& r.chunk_duration_ms == (match s.chunk_duration_ms {
        Some(v) => Some(spec_clamp_chunk_duration_ms(v)),
        None => None::<u16>,
    })
    &&& r.partial_cadence_ms == (match s.partial_cadence_ms {
        Some(v) => Some(spec_clamp_partial_cadence_ms(v)),
        None => None::<u16>,
    })
    &&& r.whisper_backend_preference == s.whisper_backend_preference
    &&& view_opt_string(r.faster_whisper_model) == spec_normalized_model_name(
        view_opt_string(s.faster_whisper_model),
    )
    &&& r.faster_whisper_compute_type == s.faster_whisper_compute_type
    &&& r.faster_whisper_beam_size == spec_clamp_beam_size(s.faster_whisper_beam_size)
    &&& r.clipboard_fallback == s.clipboard_fallback
    &&& r.launch_at_startup == s.launch_at_startup
}

/// Bring loaded or patched settings back into range.
pub fn normalize_settings(settings: AppSettings) -> (r: AppSettings)
    ensures
        is_normalized_of(r, settings),
{
    let mic = if settings.mic_sensitivity_percent < 50 {
        50
    } else if settings.mic_sensitivity_percent > 300 {
        300
    } else {
        settings.mic_sensitivity_percent
    };
    let chunk = match settings.chunk_duration_ms {
        Some(v) => Some(clamp_chunk_duration_ms(v)),
        None => None,
    };
    let cadence = match settings.partial_cadence_ms {
        Some(v) => Some(clamp_partial_cadence_ms(v)),
        None => None,
    };
    let model = match &settings.faster_whisper_model {
        Some(v) => {
            let trimmed = trim_str(v.as_str());
            if trimmed.as_str().unicode_len() > 0 {
                Some(trimmed)
            } else {
                None
            }
        },
        None => None,
    };
    let beam = if settings.faster_whisper_beam_size < 1 {
        1
    } else if settings.faster_whisper_beam_size > 8 {
        8
    } else {
        settings.faster_whisper_beam_size
    };
    AppSettings {
        mic_sensitivity_percent: mic,
        chunk_duration_ms: chunk,
        partial_cadence_ms: cadence,
        faster_whisper_model: model,
        faster_whisper_beam_size: beam,
        ..settings
    }
}

/// The hotkey after a patch: a trimmed, non-blank patch value replaces the
/// current one; a blank or absent patch value keeps it.
pub open spec fn spec_patched_hotkey(cur: Seq<char>, patch: Option<Seq<char>>) -> Seq<char> {
    match patch {
        Some(h) => if trim_spec(h).len() > 0 {
            trim_spec(h)
        } else {
            cur
        },
        None => cur,
    }
}

/// Merge a partial update into the settings and bring the result back into
/// range. The language is not patchable and carries over.
pub fn apply_patch(settings: &AppSettings, patch: AppSettingsPatch) -> (r: AppSettings)
    ensures
        r.hotkey@ == spec_patched_hotkey(settings.hotkey@, view_opt_string(patch.hotkey)),
        r.mode == (match patch.mode {
            Some(m) => m,
            None => settings.mode,
        }),
        r.language == settings.language,
        r.model_profile == (match patch.model_profile {
            Some(p) => p,
            None => settings.model_profile,
        }),
        r.stt_engine == (match patch.stt_engine {
            Some(e) => e,
            None => settings.stt_engine,
        }),
        r.model_path == (match patch.model_path {
            Some(p) => p,
            None => settings.model_path,
        }),
        r.microphone_id == (match patch.microphone_id {
            Some(m) => m,
            None => settings.microphone_id,
        }),
        r.mic_sensitivity_percent == spec_clamp_mic_sensitivity(
            match patch.mic_sensitivity_percent {
                Some(v) => v,
                None => settings.mic_sensitivity_percent,
            },
        ),
        r.chunk_duration_ms == (match (match patch.chunk_duration_ms {
            Some(v) => Some(v),
            None => settings.chunk_duration_ms,
        }) {
            Some(v) => Some(spec_clamp_chunk_duration_ms(v)),
            None => None::<u16>,
        }),
        r.partial_cadence_ms == (match (match patch.partial_cadence_ms {
            Some(v) => Some(v),
            None => settings.partial_cadence_ms,
        }) {
            Some(v) => Some(spec_clamp_partial_cadence_ms(v)),
            None => None::<u16>,
        }),
        r.whisper_backend_preference == (match patch.whisper_backend_preference {
            Some(w) => w,
            None => settings.whisper_backend_preference,
        }),
        view_opt_string(r.faster_whisper_model) == spec_normalized_model_name(
            view_opt_string(
                match patch.faster_whisper_model {
                    Some(m) => m,
                    None => settings.faster_whisper_model,
                },
            ),
        ),
        r.faster_whisper_compute_type == (match patch.faster_whisper_compute_type {
            Some(c) => c,
            None => settings.faster_whisper_compute_type,
        }),
        r.faster_whisper_beam_size == spec_clamp_beam_size(
            match patch.faster_whisper_beam_size {
                Some(b) => b,
                None => settings.faster_whisper_beam_size,
            },
        ),
        r.clipboard_fallback == (match patch.clipboard_fallback {
            Some(c) => c,
            None => settings.clipboard_fallback,
        }),
        r.launch_at_startup == (match patch.launch_at_startup {
            Some(l) => l,
            None => settings.launch_at_startup,
        }),
{
    let hotkey = match patch.hotkey {
        Some(h) => {
            let trimmed = trim_str(h.as_str());
            if trimmed.as_str().unicode_len() > 0 {
                trimmed
            } else {
                settings.hotkey.clone()
            }
        },
        None => settings.hotkey.clone(),
    };
    let combined = AppSettings {
        hotkey,
        mode: match patch.mode {
            Some(m) => m,
            None => settings.mode,
        },
        language: settings.language.clone(),
        model_profile: match patch.model_profile {
            Some(p) => p,
            None => settings.model_profile,
        },
        stt_engine: match patch.stt_engine {
            Some(e) => e,
            None => settings.stt_engine,
        },
        model_path: match patch.model_path {
            Some(p) => p,
            None => clone_opt_string(&settings.model_path),
        },
        microphone_id: match patch.microphone_id {
            Some(m) => m,
            None => clone_opt_string(&settings.microphone_id),
        },
        mic_sensitivity_percent: match patch.mic_sensitivity_percent {
            Some(v) => if v < 50 {
                50
            } else if v > 300 {
                300
            } else {
                v
            },
            None => settings.mic_sensitivity_percent,
        },
        chunk_duration_ms: match patch.chunk_duration_ms {
            Some(v) => Some(v),
            None => settings.chunk_duration_ms,
        },
        partial_cadence_ms: match patch.partial_cadence_ms {
            Some(v) => Some(v),
            None => settings.partial_cadence_ms,
        },
        whisper_backend_preference: match patch.whisper_backend_preference {
            Some(w) => w,
            None => settings.whisper_backend_preference,
        },
        faster_whisper_model: match patch.faster_whisper_model {
            Some(m) => m,
            None => clone_opt_string(&settings.faster_whisper_model),
        },
        faster_whisper_compute_type: match patch.faster_whisper_compute_type {
            Some(c) => c,
            None => settings.faster_whisper_compute_type,
        },
        faster_whisper_beam_size: match patch.faster_whisper_beam_size {
            Some(b) => b,
            None => settings.faster_whisper_beam_size,
        },
        clipboard_fallback: match patch.clipboard_fallback {
            Some(c) => c,
            None => settings.clipboard_fallback,
        },
        launch_at_startup: match patch.launch_at_startup {
            Some(l) => l,
            None => settings.launch_at_startup,
        },
    };
    normalize_settings(combined)
}

fn clone_opt_string(o: &Option<String>) -> (r: Option<String>)
    ensures
        r == *o,
{
    match o {
        Some(s) => Some(s.clone()),
        None => None,
    }
}

} // verus!
