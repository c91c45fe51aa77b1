use sonora_core::config::{DictationMode, ModelProfile};
use sonora_core::pipeline::{DictationPipeline, DictationState};
use sonora_core::profile::ProfileTuning;
use sonora_core::transcriber::{StubTranscriber, Transcriber};

fn speech_chunk() -> Vec<i16> {
    (0..20_000)
        .map(|i| {
            let angle = i as f32 * 0.1;
            (angle.sin() * 0.2 * 32_767.0) as i16
        })
        .collect()
}

struct FailingTranscriber;

impl Transcriber for FailingTranscriber {
    fn transcribe(&self, _samples: &[i16]) -> Result<String, String> {
        Err("engine offline".to_string())
    }

    fn engine_label(&self) -> String {
        "failing".to_string()
    }

    fn model_label(&self) -> String {
        "failing".to_string()
    }
}

#[test]
fn starts_listening_on_hotkey_down() {
    let mut pipeline = DictationPipeline::new(
        DictationMode::PushToToggle,
        ModelProfile::Balanced,
        StubTranscriber,
    );
    pipeline.on_hotkey_down();
    assert_eq!(pipeline.status().state, DictationState::Listening);
}

#[test]
fn push_to_toggle_stops_with_second_press() {
    let mut pipeline = DictationPipeline::new(
        DictationMode::PushToToggle,
        ModelProfile::Balanced,
        StubTranscriber,
    );
    pipeline.on_hotkey_down();
    pipeline.on_hotkey_down();
    assert_eq!(pipeline.status().state, DictationState::Idle);
}

#[test]
fn push_to_talk_stops_on_release() {
    let mut pipeline = DictationPipeline::new(
        DictationMode::PushToTalk,
        ModelProfile::Balanced,
        StubTranscriber,
    );
    pipeline.on_hotkey_down();
    pipeline.on_hotkey_up();
    assert_eq!(pipeline.status().state, DictationState::Idle);
}

#[test]
fn push_to_talk_ignores_second_press() {
    let mut pipeline = DictationPipeline::new(
        DictationMode::PushToTalk,
        ModelProfile::Balanced,
        StubTranscriber,
    );
    pipeline.on_hotkey_down();
    pipeline.on_hotkey_down();
    assert_eq!(pipeline.status().state, DictationState::Listening);
}

#[test]
fn release_is_ignored_in_toggle_mode() {
    let mut pipeline = DictationPipeline::new(
        DictationMode::PushToToggle,
        ModelProfile::Balanced,
        StubTranscriber,
    );
    pipeline.on_hotkey_down();
    pipeline.on_hotkey_up();
    assert_eq!(pipeline.status().state, DictationState::Listening);
}

#[test]
fn silent_chunk_does_not_transcribe() {
    let mut pipeline = DictationPipeline::new(
        DictationMode::PushToToggle,
        ModelProfile::Fast,
        StubTranscriber,
    );
    pipeline.on_hotkey_down();

    let result = pipeline
        .process_audio_chunk(&vec![0i16; 1024])
        .expect("silence should not fail processing");
    assert!(result.is_none());
}

#[test]
fn speech_chunk_transcribes() {
    let mut pipeline = DictationPipeline::new(
        DictationMode::PushToToggle,
        ModelProfile::Fast,
        StubTranscriber,
    );
    pipeline.on_hotkey_down();

    let result = pipeline
        .process_audio_chunk(&speech_chunk())
        .expect("speech chunk should be transcribed");

    assert_eq!(result.as_deref(), Some("phase-1 transcript"));
    assert_eq!(pipeline.status().state, DictationState::Listening);
}

#[test]
fn balanced_profile_ignores_short_chunks() {
    let mut pipeline = DictationPipeline::new(
        DictationMode::PushToToggle,
        ModelProfile::Balanced,
        StubTranscriber,
    );
    pipeline.on_hotkey_down();

    let short_chunk = vec![6_553i16; 1024];
    let result = pipeline
        .process_audio_chunk(&short_chunk)
        .expect("short chunk should be ignored");
    assert!(result.is_none());
}

#[test]
fn set_model_profile_updates_tuning() {
    let mut pipeline = DictationPipeline::new(
        DictationMode::PushToToggle,
        ModelProfile::Balanced,
        StubTranscriber,
    );

    let before = pipeline.status();
    pipeline.set_model_profile(ModelProfile::Fast);
    let after = pipeline.status();

    assert_eq!(before.model_profile, ModelProfile::Balanced);
    assert_eq!(after.model_profile, ModelProfile::Fast);
    assert_eq!(after.tuning, before.tuning);
}

#[test]
fn set_tuning_overrides_chunk_timing() {
    let mut pipeline = DictationPipeline::new(
        DictationMode::PushToToggle,
        ModelProfile::Balanced,
        StubTranscriber,
    );

    pipeline.set_tuning(ProfileTuning {
        min_chunk_samples: 8_000,
        partial_cadence_ms: 450,
    });

    let status = pipeline.status();
    assert_eq!(status.tuning.min_chunk_samples, 8_000);
    assert_eq!(status.tuning.partial_cadence_ms, 450);
}

#[test]
fn profiled_processing_reports_skipped_when_not_listening() {
    let mut pipeline = DictationPipeline::new(
        DictationMode::PushToToggle,
        ModelProfile::Fast,
        StubTranscriber,
    );

    let metrics = pipeline
        .process_audio_chunk_profiled(&speech_chunk())
        .expect("profiling call should succeed");

    assert!(!metrics.listening);
    assert!(!metrics.enough_samples);
    assert!(!metrics.had_speech);
    assert!(metrics.transcript.is_none());
}

#[test]
fn profiled_processing_reports_vad_and_inference_for_speech() {
    let mut pipeline = DictationPipeline::new(
        DictationMode::PushToToggle,
        ModelProfile::Fast,
        StubTranscriber,
    );
    pipeline.on_hotkey_down();

    let metrics = pipeline
        .process_audio_chunk_profiled(&speech_chunk())
        .expect("speech chunk profiling should succeed");

    assert!(metrics.listening);
    assert!(metrics.enough_samples);
    assert!(metrics.had_speech);
    assert!(metrics.transcript.is_some());
}

#[test]
fn engine_failure_leaves_state_transcribing_until_cancel() {
    let mut pipeline = DictationPipeline::new(
        DictationMode::PushToToggle,
        ModelProfile::Fast,
        FailingTranscriber,
    );
    pipeline.on_hotkey_down();

    let result = pipeline.process_audio_chunk(&speech_chunk());
    assert_eq!(result, Err("engine offline".to_string()));
    assert_eq!(pipeline.status().state, DictationState::Transcribing);

    pipeline.cancel();
    assert_eq!(pipeline.status().state, DictationState::Idle);
}

#[test]
fn set_mode_resets_state_to_idle() {
    let mut pipeline = DictationPipeline::new(
        DictationMode::PushToToggle,
        ModelProfile::Fast,
        StubTranscriber,
    );
    pipeline.on_hotkey_down();
    pipeline.set_mode(DictationMode::PushToTalk);
    let status = pipeline.status();
    assert_eq!(status.state, DictationState::Idle);
    assert_eq!(status.mode, DictationMode::PushToTalk);
}
