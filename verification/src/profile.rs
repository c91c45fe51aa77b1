//! Model-profile policy: hardware-tier detection, profile-derived tuning,
//! user-override clamping, and resolution of the model file's candidate
//! paths.

use vstd::prelude::*;

use crate::config::{AppSettings, ModelProfile};
use crate::paths::{
    dedupe_paths, dedupe_spec, file_name_of, file_name_spec, is_relative_path, is_relative_spec,
    join_spec, path_exists, path_join, pick_first_existing, probe_paths, spec_first_existing,
    views_of,
};
use crate::text::{view_opt_str, view_opt_string};

verus! {

/// Rough machine capability, derived from the logical core count.
#[derive(Debug, Clone, Copy, PartialEq, Eq, Structural)]
pub enum HardwareTier {
    Low,
    Mid,
    High,
}

/// Profile-derived chunking parameters: the minimum chunk length in samples
/// and the minimum interval between chunk emissions.
#[derive(Debug, Clone, Copy, PartialEq, Eq, Structural)]
pub struct ProfileTuning {
    pub min_chunk_samples: usize,
    pub partial_cadence_ms: u64,
}

pub const CHUNK_DURATION_MS_MIN: u16 = 500;

pub const CHUNK_DURATION_MS_MAX: u16 = 4000;

pub const PARTIAL_CADENCE_MS_MIN: u16 = 300;

pub const PARTIAL_CADENCE_MS_MAX: u16 = 2500;

pub const SAMPLE_RATE_HZ: u32 = 16000;

/// Everything a collaborator needs to display the model selection state.
#[derive(Debug, Clone, PartialEq, Eq)]
pub struct ModelStatus {
    pub profile: ModelProfile,
    pub hardware_tier: HardwareTier,
    pub model_path: String,
    pub model_exists: bool,
    pub checked_paths: Vec<String>,
    pub tuning: ProfileTuning,
}

/// Map a logical core count to a hardware tier.
pub fn detect_hardware_tier(logical_cores: usize) -> (r: HardwareTier)
    ensures
        logical_cores <= 4 ==> r == HardwareTier::Low,
        4 < logical_cores <= 8 ==> r == HardwareTier::Mid,
        logical_cores > 8 ==> r == HardwareTier::High,
{
    if logical_cores <= 4 {
        HardwareTier::Low
    } else if logical_cores <= 8 {
        HardwareTier::Mid
    } else {
        HardwareTier::High
    }
}

/// The profile recommended for a hardware tier: only low-end machines get
/// the fast profile.
pub fn recommended_profile_for_tier(tier: HardwareTier) -> (r: ModelProfile)
    ensures
        tier == HardwareTier::Low ==> r == ModelProfile::Fast,
        tier != HardwareTier::Low ==> r == ModelProfile::Balanced,
{
    match tier {
        HardwareTier::Low => ModelProfile::Fast,
        HardwareTier::Mid => ModelProfile::Balanced,
        HardwareTier::High => ModelProfile::Balanced,
    }
}

/// The chunking parameters each profile implies.
pub open spec fn spec_tuning_for_profile(profile: ModelProfile) -> ProfileTuning {
    match profile {
        ModelProfile::Fast => ProfileTuning { min_chunk_samples: 16000, partial_cadence_ms: 900 },
        ModelProfile::Balanced => ProfileTuning {
            min_chunk_samples: 32000,
            partial_cadence_ms: 1400,
        },
    }
}

pub fn tuning_for_profile(profile: ModelProfile) -> (r: ProfileTuning)
    ensures
        r == spec_tuning_for_profile(profile),
{
    match profile {
        ModelProfile::Fast => ProfileTuning { min_chunk_samples: 16000, partial_cadence_ms: 900 },
        ModelProfile::Balanced => ProfileTuning {
            min_chunk_samples: 32000,
            partial_cadence_ms: 1400,
        },
    }
}

/// The chunk duration implied by a profile's minimum chunk size at 16 kHz.
pub open spec fn spec_default_chunk_duration_ms(profile: ModelProfile) -> u16 {
    match profile {
        ModelProfile::Fast => 1000u16,
        ModelProfile::Balanced => 2000u16,
    }
}

pub fn default_chunk_duration_ms_for_profile(profile: ModelProfile) -> (r: u16)
    ensures
        r == spec_default_chunk_duration_ms(profile),
{
    let tuning = tuning_for_profile(profile);
    ((tuning.min_chunk_samples as u64 * 1000) / (SAMPLE_RATE_HZ as u64)) as u16
}

pub open spec fn spec_default_partial_cadence_ms(profile: ModelProfile) -> u16 {
    match profile {
        ModelProfile::Fast => 900u16,
        ModelProfile::Balanced => 1400u16,
    }
}

pub fn default_partial_cadence_ms_for_profile(profile: ModelProfile) -> (r: u16)
    ensures
        r == spec_default_partial_cadence_ms(profile),
{
    tuning_for_profile(profile).partial_cadence_ms as u16
}

pub open spec fn spec_clamp_chunk_duration_ms(value: u16) -> u16 {
    if value < 500 {
        500u16
    } else if value > 4000 {
        4000u16
    } else {
        value
    }
}

pub fn clamp_chunk_duration_ms(value: u16) -> (r: u16)
    ensures
        r == spec_clamp_chunk_duration_ms(value),
{
    if value < CHUNK_DURATION_MS_MIN {
        CHUNK_DURATION_MS_MIN
    } else if value > CHUNK_DURATION_MS_MAX {
        CHUNK_DURATION_MS_MAX
    } else {
        value
    }
}

pub open spec fn spec_clamp_partial_cadence_ms(value: u16) -> u16 {
    if value < 300 {
        300u16
    } else if value > 2500 {
        2500u16
    } else {
        value
    }
}

pub fn clamp_partial_cadence_ms(value: u16) -> (r: u16)
    ensures
        r == spec_clamp_partial_cadence_ms(value),
{
    if value < PARTIAL_CADENCE_MS_MIN {
        PARTIAL_CADENCE_MS_MIN
    } else if value > PARTIAL_CADENCE_MS_MAX {
        PARTIAL_CADENCE_MS_MAX
    } else {
        value
    }
}

/// The chunk duration in force: the clamped override when one is set, the
/// profile default otherwise.
pub open spec fn spec_effective_chunk_duration_ms(settings: AppSettings) -> u16 {
    match settings.chunk_duration_ms {
        Some(v) => spec_clamp_chunk_duration_ms(v),
        None => spec_default_chunk_duration_ms(settings.model_profile),
    }
}

pub fn effective_chunk_duration_ms(settings: &AppSettings) -> (r: u16)
    ensures
        r == spec_effective_chunk_duration_ms(*settings),
{
    match settings.chunk_duration_ms {
        Some(v) => clamp_chunk_duration_ms(v),
        None => default_chunk_duration_ms_for_profile(settings.model_profile),
    }
}

pub open spec fn spec_effective_partial_cadence_ms(settings: AppSettings) -> u16 {
    match settings.partial_cadence_ms {
        Some(v) => spec_clamp_partial_cadence_ms(v),
        None => spec_default_partial_cadence_ms(settings.model_profile),
    }
}

pub fn effective_partial_cadence_ms(settings: &AppSettings) -> (r: u16)
    ensures
        r == spec_effective_partial_cadence_ms(*settings),
{
    match settings.partial_cadence_ms {
        Some(v) => clamp_partial_cadence_ms(v),
        None => default_partial_cadence_ms_for_profile(settings.model_profile),
    }
}

/// The tuning the settings imply: the effective chunk duration converted to
/// samples at 16 kHz with an 8000-sample floor, and the effective cadence.
pub open spec fn spec_tuning_for_settings(settings: AppSettings) -> ProfileTuning {
    ProfileTuning {
        min_chunk_samples: vstd::math::max(
            (16000 * spec_effective_chunk_duration_ms(settings) as int) / 1000,
            8000,
        ) as usize,
        partial_cadence_ms: spec_effective_partial_cadence_ms(settings) as u64,
    }
}

pub fn tuning_for_settings(settings: &AppSettings) -> (r: ProfileTuning)
    ensures
        r == spec_tuning_for_settings(*settings),
{
    let chunk_duration_ms = effective_chunk_duration_ms(settings);
    let partial_cadence_ms = effective_partial_cadence_ms(settings);
    let samples: u64 = (SAMPLE_RATE_HZ as u64 * chunk_duration_ms as u64) / 1000;
    let min_chunk_samples: u64 = if samples < 8000 {
        8000
    } else {
        samples
    };
    ProfileTuning {
        min_chunk_samples: min_chunk_samples as usize,
        partial_cadence_ms: partial_cadence_ms as u64,
    }
}

/// The packaged model file each profile uses by default.
pub open spec fn spec_default_model_relative_path(profile: ModelProfile) -> Seq<char> {
    match profile {
        ModelProfile::Fast => "models/ggml-tiny.en-q8_0.bin"@,
        ModelProfile::Balanced => "models/ggml-base.en-q5_1.bin"@,
    }
}

pub fn default_model_relative_path(profile: ModelProfile) -> (r: String)
    ensures
        r@ == spec_default_model_relative_path(profile),
{
    match profile {
        ModelProfile::Fast => String::from_str("models/ggml-tiny.en-q8_0.bin"),
        ModelProfile::Balanced => String::from_str("models/ggml-base.en-q5_1.bin"),
    }
}

/// The candidate list before de-duplication: the override path (plus its
/// resource-relative variants when it is relative), then the default model
/// path in the working tree, then the packaged-resource locations.
pub open spec fn raw_model_candidates(
    settings: AppSettings,
    resource_dir: Option<Seq<char>>,
) -> Seq<Seq<char>> {
    let dr = spec_default_model_relative_path(settings.model_profile);
    let df = file_name_spec(dr);
    let override_part = match view_opt_string(settings.model_path) {
        Some(p) => seq![p] + if is_relative_spec(p) {
            seq![join_spec("src-tauri/resources"@, p)] + match resource_dir {
                Some(rd) => seq![
                    join_spec(rd, p),
                    join_spec(join_spec(rd, "resources"@), p),
                ],
                None => Seq::empty(),
            }
        } else {
            Seq::empty()
        },
        None => Seq::empty(),
    };
    let default_part = seq![dr, join_spec("src-tauri/resources"@, dr)];
    let resource_part = match resource_dir {
        Some(rd) => seq![
            join_spec(rd, dr),
            join_spec(join_spec(rd, "resources"@), dr),
            join_spec(join_spec(rd, "models"@), df),
            join_spec(rd, df),
        ],
        None => Seq::empty(),
    };
    override_part + default_part + resource_part
}

/// What [`resolve_model_candidates`] returns: the raw candidate list with
/// duplicates dropped.
pub open spec fn model_candidates_spec(
    settings: AppSettings,
    resource_dir: Option<Seq<char>>,
) -> Seq<Seq<char>> {
    dedupe_spec(raw_model_candidates(settings, resource_dir))
}

/// Every path at which the model file will be looked for, in order.
pub fn resolve_model_candidates(settings: &AppSettings, resource_dir: Option<&str>) -> (r: Vec<
    String,
>)
    ensures
        views_of(r@) == model_candidates_spec(*settings, view_opt_str(resource_dir)),
{
    let default_relative = default_model_relative_path(settings.model_profile);
    let default_file_name = file_name_of(default_relative.as_str());

    let mut candidates: Vec<String> = Vec::new();

    match &settings.model_path {
        Some(path) => {
            candidates.push(path.clone());
            if is_relative_path(path.as_str()) {
                candidates.push(path_join("src-tauri/resources", path.as_str()));
                match resource_dir {
                    Some(resources) => {
                        candidates.push(path_join(resources, path.as_str()));
                        let nested = path_join(resources, "resources");
                        candidates.push(path_join(nested.as_str(), path.as_str()));
                    },
                    None => {},
                }
            }
        },
        None => {},
    }

    candidates.push(default_relative.clone());
    candidates.push(path_join("src-tauri/resources", default_relative.as_str()));

    match resource_dir {
        Some(resources) => {
            candidates.push(path_join(resources, default_relative.as_str()));
            let nested = path_join(resources, "resources");
            candidates.push(path_join(nested.as_str(), default_relative.as_str()));
            let models = path_join(resources, "models");
            candidates.push(path_join(models.as_str(), default_file_name.as_str()));
            candidates.push(path_join(resources, default_file_name.as_str()));
        },
        None => {},
    }

    proof {
        assert(views_of(candidates@) =~= raw_model_candidates(
            *settings,
            view_opt_str(resource_dir),
        ));
    }
    dedupe_paths(candidates)
}

proof fn lemma_dedupe_prefix_nonempty(s: Seq<Seq<char>>, i: int)
    requires
        1 <= i <= s.len(),
    ensures
        crate::paths::dedupe_prefix(s, i).len() >= 1,
    decreases i,
{
    if i > 1 {
        lemma_dedupe_prefix_nonempty(s, i - 1);
    }
}

/// What the model-path resolver yields for recorded probe outcomes: the
/// first candidate whose probe found it on disk, or the first candidate
/// when no probe did.
pub open spec fn spec_resolved_model_path(
    candidates: Seq<Seq<char>>,
    probes: Seq<bool>,
) -> Seq<char> {
    match spec_first_existing(candidates, probes) {
        Some(path) => path,
        None => candidates[0],
    }
}

/// Pick the model path: the first candidate that exists on disk, or the
/// first candidate when none does. The probe answers depend on the file
/// system, so the result is pinned as the selection rule applied to the
/// recorded probe outcomes.
pub fn resolve_model_path(settings: &AppSettings, resource_dir: Option<&str>) -> (r: String)
    ensures
        model_candidates_spec(*settings, view_opt_str(resource_dir)).contains(r@),
        exists|probes: Seq<bool>|
            probes.len() == model_candidates_spec(*settings, view_opt_str(resource_dir)).len()
                && r@ == spec_resolved_model_path(
                model_candidates_spec(*settings, view_opt_str(resource_dir)),
                probes,
            ),
{
    let candidates = resolve_model_candidates(settings, resource_dir);
    proof {
        lemma_dedupe_prefix_nonempty(
            raw_model_candidates(*settings, view_opt_str(resource_dir)),
            raw_model_candidates(*settings, view_opt_str(resource_dir)).len() as int,
        );
    }
    let probes = probe_paths(&candidates);
    let picked = pick_first_existing(&candidates, &probes);
    let r = match picked {
        Some(path) => path,
        None => candidates[0].clone(),
    };
    proof {
        assert(views_of(candidates@)[0] == candidates@[0]@);
        assert(r@ == spec_resolved_model_path(views_of(candidates@), probes@));
        assert(probes@.len() == model_candidates_spec(*settings, view_opt_str(resource_dir)).len()
            && r@ == spec_resolved_model_path(
            model_candidates_spec(*settings, view_opt_str(resource_dir)),
            probes@,
        ));
    }
    r
}

/// Assemble the model status report: the tier for the core count, the full
/// candidate list, the resolved path (pinned to the recorded probe
/// outcomes), and `model_exists`, which reports one further probe of that
/// path; what a probe answers depends on the file system alone.
pub fn build_model_status(
    settings: &AppSettings,
    logical_cores: usize,
    resource_dir: Option<&str>,
) -> (r: ModelStatus)
    ensures
        r.profile == settings.model_profile,
        logical_cores <= 4 ==> r.hardware_tier == HardwareTier::Low,
        4 < logical_cores <= 8 ==> r.hardware_tier == HardwareTier::Mid,
        logical_cores > 8 ==> r.hardware_tier == HardwareTier::High,
        views_of(r.checked_paths@) == model_candidates_spec(*settings, view_opt_str(resource_dir)),
        model_candidates_spec(*settings, view_opt_str(resource_dir)).contains(r.model_path@),
        exists|probes: Seq<bool>|
            probes.len() == model_candidates_spec(*settings, view_opt_str(resource_dir)).len()
                && r.model_path@ == spec_resolved_model_path(
                model_candidates_spec(*settings, view_opt_str(resource_dir)),
                probes,
            ),
        r.tuning == spec_tuning_for_profile(settings.model_profile),
{
    let hardware_tier = detect_hardware_tier(logical_cores);
    let checked_paths = resolve_model_candidates(settings, resource_dir);
    let model_path = resolve_model_path(settings, resource_dir);
    let model_exists = path_exists(model_path.as_str());

    ModelStatus {
        profile: settings.model_profile,
        hardware_tier,
        model_path,
        model_exists,
        checked_paths,
        tuning: tuning_for_profile(settings.model_profile),
    }
}

} // verus!
