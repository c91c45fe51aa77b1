//! The dictation state machine: hotkey-driven mode and state transitions,
//! and the chunk path that runs audio through voice-activity detection and
//! the active engine only while listening.

use vstd::prelude::*;

use crate::config::{DictationMode, ModelProfile};
use crate::profile::{spec_tuning_for_profile, tuning_for_profile, ProfileTuning};
use crate::transcriber::Transcriber;
use crate::vad::{has_speech, has_speech_spec, VadConfig};

verus! {

/// Where the pipeline stands: idle, capturing audio, or waiting on the
/// engine.
#[derive(Debug, Clone, Copy, PartialEq, Eq, Structural)]
pub enum DictationState {
    Idle,
    Listening,
    Transcribing,
}

/// A consistent snapshot of the pipeline's externally visible state.
#[derive(Debug, Clone, PartialEq, Eq)]
pub struct PipelineStatus {
    pub mode: DictationMode,
    pub state: DictationState,
    pub model_profile: ModelProfile,
    pub tuning: ProfileTuning,
}

/// What one call of [`DictationPipeline::process_audio_chunk_profiled`]
/// decided and produced.
#[derive(Debug, Clone)]
pub struct ChunkProcessMetrics {
    pub listening: bool,
    pub enough_samples: bool,
    pub had_speech: bool,
    pub engine: String,
    pub model: String,
    pub transcript: Option<String>,
}

/// The dictation pipeline: one state value per instance, mutated only
/// through the transition methods below, and an engine invoked only while
/// the state is `Listening`.
pub struct DictationPipeline<T: Transcriber> {
    pub mode: DictationMode,
    pub state: DictationState,
    pub model_profile: ModelProfile,
    pub tuning: ProfileTuning,
    pub vad_config: VadConfig,
    pub transcriber: T,
}

/// Whether a chunk of this length, with this much voice, would be handed
/// to the engine: the pipeline must be listening, the chunk must reach the
/// tuned minimum length, and the voice-activity gate must report speech.
pub open spec fn chunk_accepted<T: Transcriber>(
    p: DictationPipeline<T>,
    samples: Seq<i16>,
) -> bool {
    &&& p.state == DictationState::Listening
    &&& samples.len() >= p.tuning.min_chunk_samples
    &&& has_speech_spec(samples, p.vad_config)
}

impl<T: Transcriber> DictationPipeline<T> {
    /// A fresh pipeline: idle, with the profile's tuning and the default
    /// voice-activity gate.
    pub fn new(mode: DictationMode, model_profile: ModelProfile, transcriber: T) -> (r: Self)
        ensures
            r.mode == mode,
            r.state == DictationState::Idle,
            r.model_profile == model_profile,
            r.tuning == spec_tuning_for_profile(model_profile),
            r.vad_config == (VadConfig { min_samples: 512usize, energy_per_sample: 241577u32 }),
    {
        DictationPipeline {
            mode,
            state: DictationState::Idle,
            model_profile,
            tuning: tuning_for_profile(model_profile),
            vad_config: VadConfig::default(),
            transcriber,
        }
    }

    /// A snapshot of the externally visible state.
    pub fn status(&self) -> (r: PipelineStatus)
        ensures
            r.mode == self.mode,
            r.state == self.state,
            r.model_profile == self.model_profile,
            r.tuning == self.tuning,
    {
        PipelineStatus {
            mode: self.mode,
            state: self.state,
            model_profile: self.model_profile,
            tuning: self.tuning,
        }
    }

    /// Change the dictation mode; any session in progress is abandoned and
    /// the state returns to idle.
    pub fn set_mode(&mut self, mode: DictationMode)
        ensures
            final(self).mode == mode,
            final(self).state == DictationState::Idle,
            final(self).model_profile == old(self).model_profile,
            final(self).tuning == old(self).tuning,
            final(self).vad_config == old(self).vad_config,
            final(self).transcriber == old(self).transcriber,
    {
        self.mode = mode;
        self.state = DictationState::Idle;
    }

    /// Change the model profile; the tuning is left as it is.
    pub fn set_model_profile(&mut self, model_profile: ModelProfile)
        ensures
            final(self).model_profile == model_profile,
            final(self).mode == old(self).mode,
            final(self).state == old(self).state,
            final(self).tuning == old(self).tuning,
            final(self).vad_config == old(self).vad_config,
            final(self).transcriber == old(self).transcriber,
    {
        self.model_profile = model_profile;
    }

    /// Override the chunking tuning independently of the profile.
    pub fn set_tuning(&mut self, tuning: ProfileTuning)
        ensures
            final(self).tuning == tuning,
            final(self).mode == old(self).mode,
            final(self).state == old(self).state,
            final(self).model_profile == old(self).model_profile,
            final(self).vad_config == old(self).vad_config,
            final(self).transcriber == old(self).transcriber,
    {
        self.tuning = tuning;
    }

    /// Swap in another engine.
    pub fn set_transcriber(&mut self, transcriber: T)
        ensures
            final(self).transcriber == transcriber,
            final(self).mode == old(self).mode,
            final(self).state == old(self).state,
            final(self).model_profile == old(self).model_profile,
            final(self).tuning == old(self).tuning,
            final(self).vad_config == old(self).vad_config,
    {
        self.transcriber = transcriber;
    }

    /// Hotkey press: idle starts listening; while listening, a press stops
    /// the session only in push-to-toggle mode; while transcribing it is
    /// ignored.
    pub fn on_hotkey_down(&mut self)
        ensures
            old(self).state == DictationState::Idle ==> final(self).state
                == DictationState::Listening,
            old(self).state == DictationState::Listening && old(self).mode
                == DictationMode::PushToToggle ==> final(self).state == DictationState::Idle,
            old(self).state == DictationState::Listening && old(self).mode
                == DictationMode::PushToTalk ==> final(self).state == DictationState::Listening,
            old(self).state == DictationState::Transcribing ==> final(self).state
                == DictationState::Transcribing,
            final(self).mode == old(self).mode,
            final(self).model_profile == old(self).model_profile,
            final(self).tuning == old(self).tuning,
            final(self).vad_config == old(self).vad_config,
            final(self).transcriber == old(self).transcriber,
    {
        match self.state {
            DictationState::Idle => {
                self.state = DictationState::Listening;
            },
            DictationState::Listening => {
                if self.mode == DictationMode::PushToToggle {
                    self.state = DictationState::Idle;
                }
            },
            DictationState::Transcribing => {},
        }
    }

    /// Hotkey release: ends the session only in push-to-talk mode while
    /// listening; every other combination is a no-op.
    pub fn on_hotkey_up(&mut self)
        ensures
            old(self).mode == DictationMode::PushToTalk && old(self).state
                == DictationState::Listening ==> final(self).state == DictationState::Idle,
            !(old(self).mode == DictationMode::PushToTalk && old(self).state
                == DictationState::Listening) ==> final(self).state == old(self).state,
            final(self).mode == old(self).mode,
            final(self).model_profile == old(self).model_profile,
            final(self).tuning == old(self).tuning,
            final(self).vad_config == old(self).vad_config,
            final(self).transcriber == old(self).transcriber,
    {
        if self.mode == DictationMode::PushToTalk && self.state == DictationState::Listening {
            self.state = DictationState::Idle;
        }
    }

    /// Force the pipeline back to idle unconditionally.
    pub fn cancel(&mut self)
        ensures
            final(self).state == DictationState::Idle,
            final(self).mode == old(self).mode,
            final(self).model_profile == old(self).model_profile,
            final(self).tuning == old(self).tuning,
            final(self).vad_config == old(self).vad_config,
            final(self).transcriber == old(self).transcriber,
    {
        self.state = DictationState::Idle;
    }

    /// Run one chunk through the acceptance checks and, when it passes,
    /// through the engine. A chunk is dropped (`Ok(None)`) whenever the pipeline is not
    /// listening, the chunk is shorter than the tuned minimum, or the
    /// voice-activity gate reports silence. On an accepted chunk the state
    /// moves to `Transcribing` for the engine call and back to `Listening`
    /// on success. When the engine fails the state deliberately stays at
    /// `Transcribing`, so no further chunk reaches the engine until
    /// [`Self::cancel`] (or a mode change) recovers the pipeline; the tests
    /// pin this choice.
    pub fn process_audio_chunk(&mut self, samples: &[i16]) -> (r: Result<Option<String>, String>)
        ensures
            !chunk_accepted(*old(self), samples@) ==> r == Ok::<Option<String>, String>(None)
                && final(self).state == old(self).state,
            chunk_accepted(*old(self), samples@) ==> match r {
                Ok(t) => t is Some && final(self).state == DictationState::Listening,
                Err(_) => final(self).state == DictationState::Transcribing,
            },
            final(self).mode == old(self).mode,
            final(self).model_profile == old(self).model_profile,
            final(self).tuning == old(self).tuning,
            final(self).vad_config == old(self).vad_config,
            final(self).transcriber == old(self).transcriber,
    {
        match self.process_audio_chunk_profiled(samples) {
            Ok(metrics) => Ok(metrics.transcript),
            Err(error) => Err(error),
        }
    }

    /// As [`Self::process_audio_chunk`], and also report which acceptance
    /// checks the chunk passed and which engine and model handled it.
    pub fn process_audio_chunk_profiled(&mut self, samples: &[i16]) -> (r: Result<
        ChunkProcessMetrics,
        String,
    >)
        ensures
            !chunk_accepted(*old(self), samples@) ==> match r {
                Ok(m) => m.transcript is None && final(self).state == old(self).state
                    && m.listening == (old(self).state == DictationState::Listening)
                    && m.enough_samples == (old(self).state == DictationState::Listening
                    && samples@.len() >= old(self).tuning.min_chunk_samples) && !m.had_speech,
                Err(_) => false,
            },
            chunk_accepted(*old(self), samples@) ==> match r {
                Ok(m) => m.transcript is Some && final(self).state == DictationState::Listening
                    && m.listening && m.enough_samples && m.had_speech,
                Err(_) => final(self).state == DictationState::Transcribing,
            },
            final(self).mode == old(self).mode,
            final(self).model_profile == old(self).model_profile,
            final(self).tuning == old(self).tuning,
            final(self).vad_config == old(self).vad_config,
            final(self).transcriber == old(self).transcriber,
    {
        let listening = self.state == DictationState::Listening;
        let mut metrics = ChunkProcessMetrics {
            listening,
            enough_samples: false,
            had_speech: false,
            engine: self.transcriber.engine_label(),
            model: self.transcriber.model_label(),
            transcript: None,
        };

        if !metrics.listening {
            return Ok(metrics);
        }

        if samples.len() < self.tuning.min_chunk_samples {
            return Ok(metrics);
        }
        metrics.enough_samples = true;

        let has_voice = has_speech(samples, &self.vad_config);
        metrics.had_speech = has_voice;

        if !has_voice {
            return Ok(metrics);
        }

        self.state = DictationState::Transcribing;
        let transcript = match self.transcriber.transcribe(samples) {
            Ok(t) => t,
            Err(error) => {
                return Err(error);
            },
        };
        self.state = DictationState::Listening;
        metrics.transcript = Some(transcript);
        Ok(metrics)
    }
}

} // verus!
