use sonora_core::config::{
    AppSettings, DictationMode, FasterWhisperComputeType, ModelProfile, SttEngine,
    WhisperBackendPreference,
};
use sonora_core::settings_store::{apply_patch, normalize_settings, AppSettingsPatch};

#[test]
fn applies_partial_settings_patch() {
    let defaults = AppSettings::default();
    let updated = apply_patch(
        &defaults,
        AppSettingsPatch {
            hotkey: Some("CtrlOrCmd+Shift+Y".to_string()),
            mode: Some(DictationMode::PushToTalk),
            model_profile: Some(ModelProfile::Fast),
            stt_engine: Some(SttEngine::WhisperCpp),
            model_path: Some(Some("models/custom.bin".to_string())),
            microphone_id: Some(Some("mic-2".to_string())),
            mic_sensitivity_percent: Some(185),
            chunk_duration_ms: Some(1_600),
            partial_cadence_ms: Some(700),
            whisper_backend_preference: Some(WhisperBackendPreference::Cuda),
            faster_whisper_model: Some(Some("small.en".to_string())),
            faster_whisper_compute_type: Some(FasterWhisperComputeType::Float16),
            faster_whisper_beam_size: Some(2),
            clipboard_fallback: Some(false),
            launch_at_startup: Some(true),
        },
    );

    assert_eq!(updated.hotkey, "CtrlOrCmd+Shift+Y");
    assert_eq!(updated.mode, DictationMode::PushToTalk);
    assert_eq!(updated.language, "en");
    assert_eq!(updated.model_profile, ModelProfile::Fast);
    assert_eq!(updated.stt_engine, SttEngine::WhisperCpp);
    assert_eq!(updated.model_path.as_deref(), Some("models/custom.bin"));
    assert_eq!(updated.microphone_id, Some("mic-2".to_string()));
    assert_eq!(updated.mic_sensitivity_percent, 185);
    assert_eq!(updated.chunk_duration_ms, Some(1_600));
    assert_eq!(updated.partial_cadence_ms, Some(700));
    assert_eq!(
        updated.whisper_backend_preference,
        WhisperBackendPreference::Cuda
    );
    assert_eq!(updated.faster_whisper_model.as_deref(), Some("small.en"));
    assert_eq!(
        updated.faster_whisper_compute_type,
        FasterWhisperComputeType::Float16
    );
    assert_eq!(updated.faster_whisper_beam_size, 2);
    assert!(!updated.clipboard_fallback);
    assert!(updated.launch_at_startup);
}

#[test]
fn clamps_mic_sensitivity_patch() {
    let defaults = AppSettings::default();
    let updated = apply_patch(
        &defaults,
        AppSettingsPatch {
            mic_sensitivity_percent: Some(255),
            ..AppSettingsPatch::default()
        },
    );
    assert_eq!(updated.mic_sensitivity_percent, 255);

    let clamped_low = apply_patch(
        &updated,
        AppSettingsPatch {
            mic_sensitivity_percent: Some(2),
            ..AppSettingsPatch::default()
        },
    );
    assert_eq!(clamped_low.mic_sensitivity_percent, 50);

    let clamped_high = apply_patch(
        &clamped_low,
        AppSettingsPatch {
            mic_sensitivity_percent: Some(355),
            ..AppSettingsPatch::default()
        },
    );
    assert_eq!(clamped_high.mic_sensitivity_percent, 300);
}

#[test]
fn clamps_chunk_and_cadence_patch() {
    let defaults = AppSettings::default();
    let updated = apply_patch(
        &defaults,
        AppSettingsPatch {
            chunk_duration_ms: Some(100),
            partial_cadence_ms: Some(9_000),
            ..AppSettingsPatch::default()
        },
    );

    assert_eq!(updated.chunk_duration_ms, Some(500));
    assert_eq!(updated.partial_cadence_ms, Some(2_500));
}

#[test]
fn blank_hotkey_patch_keeps_current_hotkey() {
    let defaults = AppSettings::default();
    let updated = apply_patch(
        &defaults,
        AppSettingsPatch {
            hotkey: Some("   ".to_string()),
            ..AppSettingsPatch::default()
        },
    );
    assert_eq!(updated.hotkey, "CtrlOrCmd+Shift+U");
}

#[test]
fn normalization_trims_and_drops_blank_model_name() {
    let mut settings = AppSettings::default();
    settings.mic_sensitivity_percent = 999;
    settings.chunk_duration_ms = Some(100);
    settings.partial_cadence_ms = Some(9_000);
    settings.faster_whisper_model = Some("   ".to_string());
    settings.faster_whisper_beam_size = 90;

    let normalized = normalize_settings(settings);
    assert_eq!(normalized.mic_sensitivity_percent, 300);
    assert_eq!(normalized.chunk_duration_ms, Some(500));
    assert_eq!(normalized.partial_cadence_ms, Some(2_500));
    assert!(normalized.faster_whisper_model.is_none());
    assert_eq!(normalized.faster_whisper_beam_size, 8);

    let mut padded = AppSettings::default();
    padded.faster_whisper_model = Some("  small.en  ".to_string());
    let trimmed = normalize_settings(padded);
    assert_eq!(trimmed.faster_whisper_model.as_deref(), Some("small.en"));
}
