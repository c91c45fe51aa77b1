use sonora_core::config::{AppSettings, ModelProfile};
use sonora_core::profile::{
    build_model_status, detect_hardware_tier, recommended_profile_for_tier,
    resolve_model_candidates, resolve_model_path, tuning_for_profile, tuning_for_settings,
    HardwareTier,
};

fn settings_with(
    profile: ModelProfile,
    model_path: Option<&str>,
    chunk_duration_ms: Option<u16>,
    partial_cadence_ms: Option<u16>,
) -> AppSettings {
    let mut settings = AppSettings::default();
    settings.model_profile = profile;
    settings.model_path = model_path.map(|value| value.to_string());
    settings.chunk_duration_ms = chunk_duration_ms;
    settings.partial_cadence_ms = partial_cadence_ms;
    settings
}

#[test]
fn hardware_tier_mapping_prefers_fast_for_low_spec() {
    assert_eq!(detect_hardware_tier(2), HardwareTier::Low);
    assert_eq!(
        recommended_profile_for_tier(HardwareTier::Low),
        ModelProfile::Fast
    );
}

#[test]
fn hardware_tier_mapping_prefers_balanced_for_mid_high() {
    assert_eq!(detect_hardware_tier(6), HardwareTier::Mid);
    assert_eq!(detect_hardware_tier(12), HardwareTier::High);
    assert_eq!(
        recommended_profile_for_tier(HardwareTier::Mid),
        ModelProfile::Balanced
    );
    assert_eq!(
        recommended_profile_for_tier(HardwareTier::High),
        ModelProfile::Balanced
    );
}

#[test]
fn resolves_default_model_path_from_profile() {
    let settings = settings_with(ModelProfile::Fast, None, None, None);

    assert_eq!(
        resolve_model_path(&settings, None).as_str(),
        "models/ggml-tiny.en-q8_0.bin"
    );
}

#[test]
fn uses_explicit_model_path_when_set() {
    let settings = settings_with(ModelProfile::Balanced, Some("C:/models/custom.bin"), None, None);

    assert_eq!(
        resolve_model_path(&settings, None).as_str(),
        "C:/models/custom.bin"
    );

    let candidates = resolve_model_candidates(&settings, None);
    assert!(candidates.len() > 1);
}

#[test]
fn includes_resource_candidate_when_provided() {
    let settings = settings_with(ModelProfile::Balanced, None, None, None);

    let candidates = resolve_model_candidates(&settings, Some("/app/resources"));
    assert!(candidates
        .iter()
        .any(|path| path.as_str() == "/app/resources/models/ggml-base.en-q5_1.bin"));
}

#[test]
fn returns_tuning_values_for_profiles() {
    let fast = tuning_for_profile(ModelProfile::Fast);
    let balanced = tuning_for_profile(ModelProfile::Balanced);

    assert!(fast.min_chunk_samples < balanced.min_chunk_samples);
    assert!(fast.partial_cadence_ms < balanced.partial_cadence_ms);
}

#[test]
fn tuning_for_settings_uses_profile_defaults_without_overrides() {
    let settings = settings_with(ModelProfile::Fast, None, None, None);

    let tuning = tuning_for_settings(&settings);
    assert_eq!(tuning.min_chunk_samples, 16_000);
    assert_eq!(tuning.partial_cadence_ms, 900);
}

#[test]
fn tuning_for_settings_clamps_override_values() {
    let settings = settings_with(ModelProfile::Balanced, None, Some(200), Some(9_000));

    let tuning = tuning_for_settings(&settings);
    assert_eq!(tuning.min_chunk_samples, 8_000);
    assert_eq!(tuning.partial_cadence_ms, 2_500);
}

#[test]
fn model_status_reports_tier_and_candidates() {
    let settings = settings_with(ModelProfile::Fast, None, None, None);
    let status = build_model_status(&settings, 2, None);
    assert_eq!(status.profile, ModelProfile::Fast);
    assert_eq!(status.hardware_tier, HardwareTier::Low);
    assert_eq!(status.tuning, tuning_for_profile(ModelProfile::Fast));
    assert!(!status.checked_paths.is_empty());
    assert!(status
        .checked_paths
        .iter()
        .any(|path| path.as_str() == status.model_path.as_str()));
}
