//! The transcription-engine layer: the engine capability trait, the stub
//! engine, the configuration of the two sidecar engines, compute-backend
//! and binary resolution, and the assembly of a runtime engine with its
//! diagnostics. Launching the sidecar processes is the host's job.

use vstd::prelude::*;

use crate::config::{FasterWhisperComputeType, ModelProfile, SttEngine, WhisperBackendPreference};
use crate::paths::{
    dedupe_paths, dedupe_spec, file_name_spec, has_separator, has_separator_spec, join_spec,
    lemma_dedupe_prefix_contains, path_exists, path_join, pick_first_existing, probe_paths,
    views_of,
};
use crate::text::{
    ascii_lower_spec, ascii_lower_str, chars_of, dec_digits, starts_with_spec, str_eq,
    str_starts_with, string_from_chars, trim_spec, trim_str, u64_to_string, view_opt_str,
    view_opt_string,
};

verus! {

/// The capability every transcription engine offers: turn one chunk of
/// 16 kHz mono PCM audio into text, and describe itself. Engines that drive
/// an external process implement this outside the verified core; what such
/// an engine returns is never promised here.
pub trait Transcriber {
    fn transcribe(&self, samples: &[i16]) -> Result<String, String>;

    fn engine_label(&self) -> String;

    fn model_label(&self) -> String;
}

/// Placeholder engine used before real configuration resolves.
#[derive(Debug, Clone, Copy, PartialEq, Eq, Structural)]
pub struct StubTranscriber;

impl Transcriber for StubTranscriber {
    /// Always succeeds with the fixed placeholder transcript.
    fn transcribe(&self, samples: &[i16]) -> (r: Result<String, String>)
        ensures
            r is Ok && r->Ok_0@ == "phase-1 transcript"@,
    {
        Ok(String::from_str("phase-1 transcript"))
    }

    fn engine_label(&self) -> (r: String)
        ensures
            r@ == "stub"@,
    {
        String::from_str("stub")
    }

    fn model_label(&self) -> (r: String)
        ensures
            r@ == "stub"@,
    {
        String::from_str("stub")
    }
}

/// The compute backend the whisper sidecar runs on.
#[derive(Debug, Clone, Copy, PartialEq, Eq, Structural)]
pub enum WhisperComputeBackend {
    Cpu,
    Cuda,
}

pub open spec fn backend_label_spec(b: WhisperComputeBackend) -> Seq<char> {
    match b {
        WhisperComputeBackend::Cpu => "cpu"@,
        WhisperComputeBackend::Cuda => "cuda"@,
    }
}

impl WhisperComputeBackend {
    pub fn as_label(self) -> (r: String)
        ensures
            r@ == backend_label_spec(self),
    {
        match self {
            WhisperComputeBackend::Cpu => String::from_str("cpu"),
            WhisperComputeBackend::Cuda => String::from_str("cuda"),
        }
    }
}

/// Configuration of the batch whisper sidecar.
#[derive(Debug, Clone, PartialEq, Eq)]
pub struct WhisperSidecarConfig {
    pub binary_path: String,
    pub model_path: String,
    pub language: String,
    pub threads: usize,
    pub compute_backend: WhisperComputeBackend,
}

/// The argument list [`WhisperSidecarConfig::command_args`] builds: model,
/// audio file, language, thread count, no-prints, no timestamps, text
/// output to the given prefix, and a GPU-disable flag on the CPU backend.
pub open spec fn command_args_spec(
    c: WhisperSidecarConfig,
    audio_file: Seq<char>,
    output_prefix: Seq<char>,
) -> Seq<Seq<char>> {
    seq![
        "-m"@,
        c.model_path@,
        "-f"@,
        audio_file,
        "-l"@,
        c.language@,
        "-t"@,
        dec_digits(c.threads as nat),
        "-np"@,
        "--no-timestamps"@,
        "-otxt"@,
        "-of"@,
        output_prefix,
    ] + if c.compute_backend == WhisperComputeBackend::Cpu {
        seq!["-ng"@]
    } else {
        Seq::empty()
    }
}

impl WhisperSidecarConfig {
    /// Build the sidecar's command-line arguments for one transcription.
    pub fn command_args(&self, audio_file: &str, output_prefix: &str) -> (r: Vec<String>)
        ensures
            views_of(r@) == command_args_spec(*self, audio_file@, output_prefix@),
    {
        let mut args: Vec<String> = Vec::new();
        args.push(String::from_str("-m"));
        args.push(self.model_path.clone());
        args.push(String::from_str("-f"));
        args.push(String::from_str(audio_file));
        args.push(String::from_str("-l"));
        args.push(self.language.clone());
        args.push(String::from_str("-t"));
        args.push(u64_to_string(self.threads as u64));
        args.push(String::from_str("-np"));
        args.push(String::from_str("--no-timestamps"));
        args.push(String::from_str("-otxt"));
        args.push(String::from_str("-of"));
        args.push(String::from_str(output_prefix));
        if self.compute_backend == WhisperComputeBackend::Cpu {
            args.push(String::from_str("-ng"));
        }
        proof {
            assert(views_of(args@) =~= command_args_spec(*self, audio_file@, output_prefix@));
        }
        args
    }
}

/// Configuration of the persistent faster-whisper worker.
#[derive(Debug, Clone, PartialEq, Eq)]
pub struct FasterWhisperSidecarConfig {
    pub binary_path: String,
    pub model: String,
    pub model_cache_dir: String,
    pub language: String,
    pub device: String,
    pub compute_type: String,
    pub beam_size: u8,
}

/// Immutable description of the engine to build.
#[derive(Debug, Clone, PartialEq, Eq)]
pub struct EngineSpec {
    pub engine: SttEngine,
    pub language: String,
    pub model_profile: ModelProfile,
    pub model_path: String,
    pub whisper_backend_preference: WhisperBackendPreference,
    pub faster_whisper_compute_type: FasterWhisperComputeType,
    pub faster_whisper_beam_size: u8,
    pub resource_dir: Option<String>,
}

/// Facts about the machine and process environment that engine resolution
/// depends on, gathered at the edge by the host and passed in as values.
#[derive(Debug, Clone, PartialEq, Eq)]
pub struct EngineEnvironment {
    pub backend_env: Option<String>,
    pub whisper_binary_env: Option<String>,
    pub faster_whisper_binary_env: Option<String>,
    pub metadata_backend: Option<WhisperComputeBackend>,
    pub nvidia_gpu_present: bool,
    pub logical_cores: usize,
    pub cache_base: String,
}

/// What a collaborator needs to display the engine's state.
#[derive(Debug, Clone, PartialEq, Eq)]
pub struct RuntimeEngineDiagnostics {
    pub ready: bool,
    pub active_engine: String,
    pub description: String,
    pub compute_backend: String,
    pub using_gpu: bool,
    pub resolved_binary_path: Option<String>,
    pub checked_binary_paths: Vec<String>,
    pub resolved_model_path: String,
    pub model_exists: bool,
}

/// The transcription engine in force: a tagged variant rather than a
/// trait object, with an explicit sentinel for "not configured".
#[derive(Debug, Clone, PartialEq, Eq)]
pub enum RuntimeTranscriber {
    Stub,
    Unavailable { reason: String },
    Whisper(WhisperSidecarConfig),
    FasterWhisper(FasterWhisperSidecarConfig),
}

/// A built engine together with its diagnostics.
#[derive(Debug, Clone, PartialEq, Eq)]
pub struct RuntimeEngine {
    pub transcriber: RuntimeTranscriber,
    pub diagnostics: RuntimeEngineDiagnostics,
}

pub open spec fn description_spec(t: RuntimeTranscriber) -> Seq<char> {
    match t {
        RuntimeTranscriber::Stub => "stub"@,
        RuntimeTranscriber::Unavailable { reason } => "unavailable: "@ + reason@,
        RuntimeTranscriber::Whisper(c) => "whisper sidecar ("@ + c.binary_path@ + ", backend "@
            + backend_label_spec(c.compute_backend) + ")"@,
        RuntimeTranscriber::FasterWhisper(c) => "faster-whisper sidecar ("@ + c.binary_path@
            + ", device "@ + c.device@ + ")"@,
    }
}

pub open spec fn compute_backend_label_of(t: RuntimeTranscriber) -> Seq<char> {
    match t {
        RuntimeTranscriber::Stub => "stub"@,
        RuntimeTranscriber::Unavailable { .. } => "unavailable"@,
        RuntimeTranscriber::Whisper(c) => backend_label_spec(c.compute_backend),
        RuntimeTranscriber::FasterWhisper(c) => c.device@,
    }
}

pub open spec fn uses_gpu_spec(t: RuntimeTranscriber) -> bool {
    match t {
        RuntimeTranscriber::Whisper(c) => c.compute_backend == WhisperComputeBackend::Cuda,
        RuntimeTranscriber::FasterWhisper(c) => c.device@ == "cuda"@,
        _ => false,
    }
}

pub open spec fn active_engine_label_spec(t: RuntimeTranscriber) -> Seq<char> {
    match t {
        RuntimeTranscriber::Whisper(_) => "whisper_cpp"@,
        RuntimeTranscriber::FasterWhisper(_) => "faster_whisper"@,
        _ => "unknown"@,
    }
}

pub open spec fn model_label_spec(t: RuntimeTranscriber) -> Seq<char> {
    match t {
        RuntimeTranscriber::Whisper(c) => c.model_path@,
        RuntimeTranscriber::FasterWhisper(c) => c.model@,
        RuntimeTranscriber::Stub => "stub"@,
        RuntimeTranscriber::Unavailable { .. } => "unknown"@,
    }
}

impl RuntimeTranscriber {
    /// A human-readable description of the engine for diagnostics.
    pub fn description(&self) -> (r: String)
        ensures
            r@ == description_spec(*self),
    {
        match self {
            RuntimeTranscriber::Stub => String::from_str("stub"),
            RuntimeTranscriber::Unavailable { reason } => {
                let r = String::from_str("unavailable: ").concat(reason.as_str());
                proof {
                    assert(r@ =~= description_spec(*self));
                }
                r
            },
            RuntimeTranscriber::Whisper(c) => {
                let label = c.compute_backend.as_label();
                let r = String::from_str("whisper sidecar (").concat(c.binary_path.as_str())
                    .concat(", backend ").concat(label.as_str()).concat(")");
                proof {
                    assert(r@ =~= description_spec(*self));
                }
                r
            },
            RuntimeTranscriber::FasterWhisper(c) => {
                let r = String::from_str("faster-whisper sidecar (").concat(c.binary_path.as_str())
                    .concat(", device ").concat(c.device.as_str()).concat(")");
                proof {
                    assert(r@ =~= description_spec(*self));
                }
                r
            },
        }
    }

    /// The label of the compute backend in force.
    pub fn compute_backend_label(&self) -> (r: String)
        ensures
            r@ == compute_backend_label_of(*self),
    {
        match self {
            RuntimeTranscriber::Stub => String::from_str("stub"),
            RuntimeTranscriber::Unavailable { .. } => String::from_str("unavailable"),
            RuntimeTranscriber::Whisper(c) => c.compute_backend.as_label(),
            RuntimeTranscriber::FasterWhisper(c) => c.device.clone(),
        }
    }

    /// Whether the engine runs on a GPU.
    pub fn uses_gpu(&self) -> (r: bool)
        ensures
            r == uses_gpu_spec(*self),
    {
        match self {
            RuntimeTranscriber::Whisper(c) => c.compute_backend == WhisperComputeBackend::Cuda,
            RuntimeTranscriber::FasterWhisper(c) => str_eq(c.device.as_str(), "cuda"),
            RuntimeTranscriber::Stub => false,
            RuntimeTranscriber::Unavailable { .. } => false,
        }
    }

    /// The identifier of the engine kind in force.
    pub fn active_engine_label(&self) -> (r: String)
        ensures
            r@ == active_engine_label_spec(*self),
    {
        match self {
            RuntimeTranscriber::Whisper(_) => String::from_str("whisper_cpp"),
            RuntimeTranscriber::FasterWhisper(_) => String::from_str("faster_whisper"),
            RuntimeTranscriber::Stub => String::from_str("unknown"),
            RuntimeTranscriber::Unavailable { .. } => String::from_str("unknown"),
        }
    }

    /// The label of the model in force.
    pub fn model_label(&self) -> (r: String)
        ensures
            r@ == model_label_spec(*self),
    {
        match self {
            RuntimeTranscriber::Whisper(c) => c.model_path.clone(),
            RuntimeTranscriber::FasterWhisper(c) => c.model.clone(),
            RuntimeTranscriber::Stub => String::from_str("stub"),
            RuntimeTranscriber::Unavailable { .. } => String::from_str("unknown"),
        }
    }
}

/// The default faster-whisper model for each profile.
pub open spec fn spec_default_faster_whisper_model(profile: ModelProfile) -> Seq<char> {
    match profile {
        ModelProfile::Fast => "tiny.en"@,
        ModelProfile::Balanced => "small.en"@,
    }
}

pub fn default_faster_whisper_model(profile: ModelProfile) -> (r: String)
    ensures
        r@ == spec_default_faster_whisper_model(profile),
{
    match profile {
        ModelProfile::Fast => String::from_str("tiny.en"),
        ModelProfile::Balanced => String::from_str("small.en"),
    }
}

/// How a backend-preference string is read: trimmed and lowercased, then
/// `auto`, `cpu`, or one of the CUDA spellings; anything else is no
/// preference.
pub open spec fn spec_parse_backend_preference(value: Option<Seq<char>>) -> Option<
    WhisperBackendPreference,
> {
    match value {
        Some(v) => {
            let n = ascii_lower_spec(trim_spec(v));
            if n.len() == 0 {
                None
            } else if n == "auto"@ {
                Some(WhisperBackendPreference::Auto)
            } else if n == "cpu"@ {
                Some(WhisperBackendPreference::Cpu)
            } else if n == "cuda"@ || n == "gpu"@ || n == "nvidia"@ {
                Some(WhisperBackendPreference::Cuda)
            } else {
                None
            }
        },
        None => None,
    }
}

/// Read a backend preference from a configuration or environment string.
pub fn parse_backend_preference(value: Option<&str>) -> (r: Option<WhisperBackendPreference>)
    ensures
        r == spec_parse_backend_preference(view_opt_str(value)),
{
    match value {
        Some(raw) => {
            let trimmed = trim_str(raw);
            let normalized = ascii_lower_str(trimmed.as_str());
            let n = normalized.as_str();
            if n.unicode_len() == 0 {
                None
            } else if str_eq(n, "auto") {
                Some(WhisperBackendPreference::Auto)
            } else if str_eq(n, "cpu") {
                Some(WhisperBackendPreference::Cpu)
            } else if str_eq(n, "cuda") || str_eq(n, "gpu") || str_eq(n, "nvidia") {
                Some(WhisperBackendPreference::Cuda)
            } else {
                None
            }
        },
        None => None,
    }
}

/// An explicit preference maps to its backend; `Auto` falls back to CPU.
pub fn map_preference_to_compute_backend(preference: WhisperBackendPreference) -> (r:
    WhisperComputeBackend)
    ensures
        preference == WhisperBackendPreference::Cuda ==> r == WhisperComputeBackend::Cuda,
        preference != WhisperBackendPreference::Cuda ==> r == WhisperComputeBackend::Cpu,
{
    match preference {
        WhisperBackendPreference::Cuda => WhisperComputeBackend::Cuda,
        WhisperBackendPreference::Cpu => WhisperComputeBackend::Cpu,
        WhisperBackendPreference::Auto => WhisperComputeBackend::Cpu,
    }
}

/// The backend hint carried by a sidecar metadata file's `backend` field.
pub open spec fn spec_metadata_backend_hint(raw: Option<Seq<char>>) -> Option<
    WhisperComputeBackend,
> {
    match spec_parse_backend_preference(raw) {
        Some(WhisperBackendPreference::Cuda) => Some(WhisperComputeBackend::Cuda),
        Some(_) => Some(WhisperComputeBackend::Cpu),
        None => None,
    }
}

/// Read the backend hint out of a sidecar metadata `backend` value.
pub fn metadata_backend_hint(raw: Option<&str>) -> (r: Option<WhisperComputeBackend>)
    ensures
        r == spec_metadata_backend_hint(view_opt_str(raw)),
{
    match parse_backend_preference(raw) {
        Some(preference) => Some(map_preference_to_compute_backend(preference)),
        None => None,
    }
}

/// The backend resolution order: environment override, then the stored
/// preference; `Auto` consults the metadata hint, then GPU detection, and
/// defaults to CPU.
pub open spec fn spec_resolve_compute_backend(
    env_value: Option<Seq<char>>,
    preference: WhisperBackendPreference,
    metadata_backend: Option<WhisperComputeBackend>,
    nvidia_gpu_present: bool,
) -> WhisperComputeBackend {
    let effective = match spec_parse_backend_preference(env_value) {
        Some(p) => p,
        None => preference,
    };
    match effective {
        WhisperBackendPreference::Cpu => WhisperComputeBackend::Cpu,
        WhisperBackendPreference::Cuda => WhisperComputeBackend::Cuda,
        WhisperBackendPreference::Auto => match metadata_backend {
            Some(b) => b,
            None => if nvidia_gpu_present {
                WhisperComputeBackend::Cuda
            } else {
                WhisperComputeBackend::Cpu
            },
        },
    }
}

/// Resolve the whisper compute backend from the gathered environment facts.
pub fn resolve_compute_backend(
    env_value: Option<&str>,
    preference: WhisperBackendPreference,
    metadata_backend: Option<WhisperComputeBackend>,
    nvidia_gpu_present: bool,
) -> (r: WhisperComputeBackend)
    ensures
        r == spec_resolve_compute_backend(
            view_opt_str(env_value),
            preference,
            metadata_backend,
            nvidia_gpu_present,
        ),
{
    let effective = match parse_backend_preference(env_value) {
        Some(p) => p,
        None => preference,
    };
    match effective {
        WhisperBackendPreference::Cpu => WhisperComputeBackend::Cpu,
        WhisperBackendPreference::Cuda => WhisperComputeBackend::Cuda,
        WhisperBackendPreference::Auto => match metadata_backend {
            Some(b) => b,
            None => if nvidia_gpu_present {
                WhisperComputeBackend::Cuda
            } else {
                WhisperComputeBackend::Cpu
            },
        },
    }
}

pub open spec fn spec_resolve_faster_whisper_device(
    env_value: Option<Seq<char>>,
    preference: WhisperBackendPreference,
    nvidia_gpu_present: bool,
) -> Seq<char> {
    let effective = match spec_parse_backend_preference(env_value) {
        Some(p) => p,
        None => preference,
    };
    match effective {
        WhisperBackendPreference::Cpu => "cpu"@,
        WhisperBackendPreference::Cuda => "cuda"@,
        WhisperBackendPreference::Auto => if nvidia_gpu_present {
            "cuda"@
        } else {
            "cpu"@
        },
    }
}

/// Resolve the faster-whisper device from the gathered environment facts.
pub fn resolve_faster_whisper_device(
    env_value: Option<&str>,
    preference: WhisperBackendPreference,
    nvidia_gpu_present: bool,
) -> (r: String)
    ensures
        r@ == spec_resolve_faster_whisper_device(
            view_opt_str(env_value),
            preference,
            nvidia_gpu_present,
        ),
{
    let effective = match parse_backend_preference(env_value) {
        Some(p) => p,
        None => preference,
    };
    match effective {
        WhisperBackendPreference::Cpu => String::from_str("cpu"),
        WhisperBackendPreference::Cuda => String::from_str("cuda"),
        WhisperBackendPreference::Auto => if nvidia_gpu_present {
            String::from_str("cuda")
        } else {
            String::from_str("cpu")
        },
    }
}

pub open spec fn spec_resolve_faster_whisper_compute_type(
    device: Seq<char>,
    preference: FasterWhisperComputeType,
) -> Seq<char> {
    match preference {
        FasterWhisperComputeType::Auto => if device == "cuda"@ {
            "float16"@
        } else {
            "int8"@
        },
        FasterWhisperComputeType::Int8 => "int8"@,
        FasterWhisperComputeType::Float16 => "float16"@,
        FasterWhisperComputeType::Float32 => "float32"@,
    }
}

/// Pick the numeric precision: an explicit choice wins, and `Auto` matches
/// the device.
pub fn resolve_faster_whisper_compute_type(device: &str, preference: FasterWhisperComputeType) -> (r:
    String)
    ensures
        r@ == spec_resolve_faster_whisper_compute_type(device@, preference),
{
    match preference {
        FasterWhisperComputeType::Auto => if str_eq(device, "cuda") {
            String::from_str("float16")
        } else {
            String::from_str("int8")
        },
        FasterWhisperComputeType::Int8 => String::from_str("int8"),
        FasterWhisperComputeType::Float16 => String::from_str("float16"),
        FasterWhisperComputeType::Float32 => String::from_str("float32"),
    }
}

/// The thread count recommended for a profile, clamped around the logical
/// core count: 2..=6 for the fast profile, 4..=8 for balanced.
pub fn recommended_threads(profile: ModelProfile, logical_cores: usize) -> (r: usize)
    ensures
        profile == ModelProfile::Fast ==> r == (if logical_cores < 2 {
            2usize
        } else if logical_cores > 6 {
            6usize
        } else {
            logical_cores
        }),
        profile == ModelProfile::Balanced ==> r == (if logical_cores < 4 {
            4usize
        } else if logical_cores > 8 {
            8usize
        } else {
            logical_cores
        }),
{
    match profile {
        ModelProfile::Fast => if logical_cores < 2 {
            2
        } else if logical_cores > 6 {
            6
        } else {
            logical_cores
        },
        ModelProfile::Balanced => if logical_cores < 4 {
            4
        } else if logical_cores > 8 {
            8
        } else {
            logical_cores
        },
    }
}

/// The model names the faster-whisper worker can fetch by name.
pub open spec fn spec_known_faster_whisper_model(name: Seq<char>) -> bool {
    ||| name == "tiny"@
    ||| name == "tiny.en"@
    ||| name == "base"@
    ||| name == "base.en"@
    ||| name == "small"@
    ||| name == "small.en"@
    ||| name == "medium"@
    ||| name == "medium.en"@
    ||| name == "large-v1"@
    ||| name == "large-v2"@
    ||| name == "large-v3"@
    ||| name == "distil-large-v2"@
    ||| name == "distil-large-v3"@
    ||| name == "distil-medium.en"@
}

pub fn is_known_faster_whisper_model_name(name: &str) -> (r: bool)
    ensures
        r == spec_known_faster_whisper_model(name@),
{
    str_eq(name, "tiny") || str_eq(name, "tiny.en") || str_eq(name, "base") || str_eq(
        name,
        "base.en",
    ) || str_eq(name, "small") || str_eq(name, "small.en") || str_eq(name, "medium") || str_eq(
        name,
        "medium.en",
    ) || str_eq(name, "large-v1") || str_eq(name, "large-v2") || str_eq(name, "large-v3") || str_eq(
        name,
        "distil-large-v2",
    ) || str_eq(name, "distil-large-v3") || str_eq(name, "distil-medium.en")
}

/// Whether a model target can be resolved without touching the disk: a
/// known model name or a recognized repository path.
pub open spec fn spec_statically_resolvable_model(trimmed: Seq<char>) -> bool {
    spec_known_faster_whisper_model(trimmed) || starts_with_spec(trimmed, "Systran/"@)
        || starts_with_spec(trimmed, "openai/"@)
}

/// The model-resolvability rule for one recorded disk-probe outcome: the
/// trimmed target is non-blank and is either on disk or statically
/// resolvable by name.
pub open spec fn spec_model_resolvable(trimmed: Seq<char>, on_disk: bool) -> bool {
    trimmed.len() > 0 && (on_disk || spec_statically_resolvable_model(trimmed))
}

/// Whether the faster-whisper model target resolves: a blank value never
/// does; a known name or repository path always does; otherwise the target
/// must exist on disk. The disk probe's answer depends on the file system,
/// so the result is pinned as the rule applied to the recorded outcome.
pub fn is_resolvable_faster_whisper_model(model: &str) -> (r: bool)
    ensures
        trim_spec(model@).len() == 0 ==> !r,
        trim_spec(model@).len() > 0 && spec_statically_resolvable_model(trim_spec(model@)) ==> r,
        exists|on_disk: bool| r == spec_model_resolvable(trim_spec(model@), on_disk),
{
    let normalized = trim_str(model);
    if normalized.as_str().unicode_len() == 0 {
        proof {
            assert(false == spec_model_resolvable(trim_spec(model@), false));
        }
        return false;
    }
    if path_exists(normalized.as_str()) {
        proof {
            assert(true == spec_model_resolvable(trim_spec(model@), true));
        }
        return true;
    }
    let statically = is_known_faster_whisper_model_name(normalized.as_str()) || str_starts_with(
        normalized.as_str(),
        "Systran/",
    ) || str_starts_with(normalized.as_str(), "openai/");
    proof {
        assert(statically == spec_model_resolvable(trim_spec(model@), false));
    }
    statically
}

/// The metadata file that may sit next to a sidecar binary.
pub open spec fn spec_metadata_path(binary_path: Seq<char>) -> Option<Seq<char>> {
    if binary_path.len() == 0 {
        None
    } else {
        Some(
            binary_path.subrange(
                0,
                binary_path.len() - file_name_spec(binary_path).len(),
            ) + "whisper-sidecar.json"@,
        )
    }
}

/// The path of the sidecar metadata file: the binary's file name replaced
/// by `whisper-sidecar.json`; an empty binary path has none.
pub fn metadata_path_for_binary(binary_path: &str) -> (r: Option<String>)
    ensures
        view_opt_string(r) == spec_metadata_path(binary_path@),
{
    let v = chars_of(binary_path);
    let n = v.len();
    if n == 0 {
        return None;
    }
    let mut cut: usize = 0;
    let mut i: usize = 0;
    while i < n
        invariant
            i <= n,
            n == v@.len(),
            v@ == binary_path@,
            cut <= i,
            forall|k: int| cut <= k < i ==> v@[k] != '/',
            cut > 0 ==> v@[cut - 1] == '/',
        decreases n - i,
    {
        if v[i] == '/' {
            cut = i + 1;
        }
        i += 1;
    }
    let mut prefix: Vec<char> = Vec::new();
    let mut k: usize = 0;
    while k < cut
        invariant
            k <= cut <= n,
            n == v@.len(),
            v@ == binary_path@,
            prefix@ == v@.subrange(0, k as int),
        decreases cut - k,
    {
        prefix.push(v[k]);
        assert(prefix@ =~= v@.subrange(0, k + 1));
        k += 1;
    }
    proof {
        crate::paths::lemma_file_name_from(binary_path@, cut as int);
    }
    let r = string_from_chars(&prefix).concat("whisper-sidecar.json");
    proof {
        assert(r@ =~= spec_metadata_path(binary_path@)->0);
    }
    Some(r)
}

/// The binary candidate list before de-duplication: the trimmed environment
/// override, the working-tree resource directories, the packaged resource
/// directories, and finally the bare name left to the system search path.
pub open spec fn raw_binary_candidates(
    env_override: Option<Seq<char>>,
    resource_dir: Option<Seq<char>>,
    binary_name: Seq<char>,
) -> Seq<Seq<char>> {
    (match env_override {
        Some(o) => if trim_spec(o).len() > 0 {
            seq![trim_spec(o)]
        } else {
            Seq::empty()
        },
        None => Seq::empty(),
    }) + seq![
        join_spec("src-tauri/resources/bin"@, binary_name),
        join_spec("resources/bin"@, binary_name),
    ] + (match resource_dir {
        Some(rd) => seq![
            join_spec(join_spec(rd, "bin"@), binary_name),
            join_spec(join_spec(join_spec(rd, "resources"@), "bin"@), binary_name),
            join_spec(rd, binary_name),
        ],
        None => Seq::empty(),
    }) + seq![binary_name]
}

pub open spec fn binary_candidates_spec(
    env_override: Option<Seq<char>>,
    resource_dir: Option<Seq<char>>,
    binary_name: Seq<char>,
) -> Seq<Seq<char>> {
    dedupe_spec(raw_binary_candidates(env_override, resource_dir, binary_name))
}

fn binary_candidates_with(
    env_override: Option<&str>,
    resource_dir: Option<&str>,
    binary_name: &str,
) -> (r: Vec<String>)
    ensures
        views_of(r@) == binary_candidates_spec(
            view_opt_str(env_override),
            view_opt_str(resource_dir),
            binary_name@,
        ),
{
    let mut candidates: Vec<String> = Vec::new();
    match env_override {
        Some(raw) => {
            let trimmed = trim_str(raw);
            if trimmed.as_str().unicode_len() > 0 {
                candidates.push(trimmed);
            }
        },
        None => {},
    }
    candidates.push(path_join("src-tauri/resources/bin", binary_name));
    candidates.push(path_join("resources/bin", binary_name));
    match resource_dir {
        Some(resources) => {
            let bin = path_join(resources, "bin");
            candidates.push(path_join(bin.as_str(), binary_name));
            let nested = path_join(resources, "resources");
            let nested_bin = path_join(nested.as_str(), "bin");
            candidates.push(path_join(nested_bin.as_str(), binary_name));
            candidates.push(path_join(resources, binary_name));
        },
        None => {},
    }
    candidates.push(String::from_str(binary_name));
    proof {
        assert(views_of(candidates@) =~= raw_binary_candidates(
            view_opt_str(env_override),
            view_opt_str(resource_dir),
            binary_name@,
        ));
    }
    dedupe_paths(candidates)
}

/// The binary selection rule over recorded probe outcomes: the first
/// candidate that is a bare name (no separator, left to the system search
/// path) or whose probe found it on disk.
pub open spec fn spec_first_usable_binary(
    candidates: Seq<Seq<char>>,
    probes: Seq<bool>,
) -> Option<Seq<char>>
    decreases candidates.len(),
{
    if candidates.len() == 0 {
        None
    } else if !has_separator_spec(candidates[0]) || (probes.len() > 0 && probes[0]) {
        Some(candidates[0])
    } else {
        spec_first_usable_binary(
            candidates.drop_first(),
            if probes.len() > 0 {
                probes.drop_first()
            } else {
                probes
            },
        )
    }
}

/// [`spec_first_usable_binary`] picks the candidate at the first position
/// that is bare or probed as existing.
proof fn lemma_first_usable_at(candidates: Seq<Seq<char>>, probes: Seq<bool>, i: int)
    requires
        probes.len() == candidates.len(),
        0 <= i <= candidates.len(),
        forall|k: int|
            0 <= k < i ==> has_separator_spec(#[trigger] candidates[k]) && !probes[k],
        i < candidates.len() ==> (!has_separator_spec(candidates[i]) || probes[i]),
    ensures
        i < candidates.len() ==> spec_first_usable_binary(candidates, probes) == Some(
            candidates[i],
        ),
        i == candidates.len() ==> spec_first_usable_binary(candidates, probes) is None,
    decreases candidates.len(),
{
    if candidates.len() == 0 {
    } else if !has_separator_spec(candidates[0]) || probes[0] {
        assert(i == 0);
    } else {
        assert(i >= 1);
        lemma_first_usable_at(candidates.drop_first(), probes.drop_first(), i - 1);
    }
}

/// A bare-name candidate guarantees that the selection finds something,
/// whatever the probes answered.
proof fn lemma_first_usable_some(candidates: Seq<Seq<char>>, probes: Seq<bool>, j: int)
    requires
        probes.len() == candidates.len(),
        0 <= j < candidates.len(),
        !has_separator_spec(candidates[j]),
    ensures
        spec_first_usable_binary(candidates, probes) is Some,
    decreases candidates.len(),
{
    if !has_separator_spec(candidates[0]) || probes[0] {
    } else {
        assert(j >= 1);
        lemma_first_usable_some(candidates.drop_first(), probes.drop_first(), j - 1);
    }
}

/// Pick the first usable binary candidate: a bare name is always usable
/// (the OS search path resolves it without an existence check), any other
/// candidate only when its probe found it. Exact over explicit probe
/// outcomes.
pub fn pick_usable_binary(candidates: &Vec<String>, exists_mask: &Vec<bool>) -> (r: Option<String>)
    requires
        exists_mask@.len() == candidates@.len(),
    ensures
        view_opt_string(r) == spec_first_usable_binary(views_of(candidates@), exists_mask@),
        r matches Some(p) ==> views_of(candidates@).contains(p@),
{
    let mut i: usize = 0;
    while i < candidates.len()
        invariant
            exists_mask@.len() == candidates@.len(),
            i <= candidates@.len(),
            forall|k: int| 0 <= k < i ==> has_separator_spec(views_of(candidates@)[k]),
            forall|k: int| 0 <= k < i ==> !exists_mask@[k],
        decreases candidates@.len() - i,
    {
        if !has_separator(candidates[i].as_str()) || exists_mask[i] {
            let chosen = candidates[i].clone();
            proof {
                lemma_first_usable_at(views_of(candidates@), exists_mask@, i as int);
                assert(views_of(candidates@)[i as int] == chosen@);
            }
            return Some(chosen);
        }
        proof {
            assert(has_separator_spec(views_of(candidates@)[i as int]));
            assert(!exists_mask@[i as int]);
        }
        i += 1;
    }
    proof {
        lemma_first_usable_at(views_of(candidates@), exists_mask@, candidates@.len() as int);
    }
    None
}

/// The default whisper binary name holds no separator.
proof fn lemma_default_binary_name_bare()
    ensures
        !has_separator_spec(spec_default_binary_name()),
{
    reveal_strlit("whisper-cli");
    assert forall|i: int| 0 <= i < "whisper-cli"@.len() implies "whisper-cli"@[i] != '/' by {
        reveal_strlit("/");
    }
}

/// The default faster-whisper worker name holds no separator.
proof fn lemma_default_faster_whisper_binary_name_bare()
    ensures
        !has_separator_spec(spec_default_faster_whisper_binary_name()),
{
    reveal_strlit("faster-whisper-worker");
    assert forall|i: int|
        0 <= i < "faster-whisper-worker"@.len() implies "faster-whisper-worker"@[i] != '/' by {
        reveal_strlit("/");
    }
}

pub open spec fn spec_default_binary_name() -> Seq<char> {
    "whisper-cli"@
}

/// The whisper sidecar's binary name on the system search path.
pub fn default_binary_name() -> (r: String)
    ensures
        r@ == spec_default_binary_name(),
{
    String::from_str("whisper-cli")
}

pub open spec fn spec_default_faster_whisper_binary_name() -> Seq<char> {
    "faster-whisper-worker"@
}

/// The faster-whisper worker's binary name on the system search path.
pub fn default_faster_whisper_binary_name() -> (r: String)
    ensures
        r@ == spec_default_faster_whisper_binary_name(),
{
    String::from_str("faster-whisper-worker")
}

/// Every path at which the whisper sidecar binary will be looked for.
pub fn resolve_binary_candidates(env_override: Option<&str>, resource_dir: Option<&str>) -> (r: Vec<
    String,
>)
    ensures
        views_of(r@) == binary_candidates_spec(
            view_opt_str(env_override),
            view_opt_str(resource_dir),
            spec_default_binary_name(),
        ),
{
    let name = default_binary_name();
    binary_candidates_with(env_override, resource_dir, name.as_str())
}

/// Pick the whisper sidecar binary: the first candidate that is a bare
/// name (left to the system search path, no existence check) or that
/// exists on disk. The bare default name is always a candidate, so some
/// binary is always picked; the probe answers depend on the file system,
/// so the result is pinned as the selection rule applied to the recorded
/// probe outcomes.
pub fn resolve_binary_path(env_override: Option<&str>, resource_dir: Option<&str>) -> (r: Option<
    String,
>)
    ensures
        r is Some,
        binary_candidates_spec(
            view_opt_str(env_override),
            view_opt_str(resource_dir),
            spec_default_binary_name(),
        ).contains(r->0@),
        exists|probes: Seq<bool>|
            probes.len() == binary_candidates_spec(
                view_opt_str(env_override),
                view_opt_str(resource_dir),
                spec_default_binary_name(),
            ).len() && view_opt_string(r) == spec_first_usable_binary(
                binary_candidates_spec(
                    view_opt_str(env_override),
                    view_opt_str(resource_dir),
                    spec_default_binary_name(),
                ),
                probes,
            ),
{
    let candidates = resolve_binary_candidates(env_override, resource_dir);
    let probes = probe_paths(&candidates);
    let picked = pick_usable_binary(&candidates, &probes);
    proof {
        lemma_bare_name_candidate(
            view_opt_str(env_override),
            view_opt_str(resource_dir),
            spec_default_binary_name(),
        );
        lemma_default_binary_name_bare();
        let views = views_of(candidates@);
        let j = choose|j: int|
            #![trigger views[j]]
            0 <= j < views.len() && views[j] == spec_default_binary_name();
        lemma_first_usable_some(views, probes@, j);
    }
    picked
}

/// Every path at which the faster-whisper worker binary will be looked for.
pub fn resolve_faster_whisper_binary_candidates(
    env_override: Option<&str>,
    resource_dir: Option<&str>,
) -> (r: Vec<String>)
    ensures
        views_of(r@) == binary_candidates_spec(
            view_opt_str(env_override),
            view_opt_str(resource_dir),
            spec_default_faster_whisper_binary_name(),
        ),
{
    let name = default_faster_whisper_binary_name();
    binary_candidates_with(env_override, resource_dir, name.as_str())
}

/// Pick the faster-whisper worker binary, as [`resolve_binary_path`] picks
/// the whisper one: the selection rule applied to the recorded probe
/// outcomes, with the bare default name guaranteeing a pick.
pub fn resolve_faster_whisper_binary_path(
    env_override: Option<&str>,
    resource_dir: Option<&str>,
) -> (r: Option<String>)
    ensures
        r is Some,
        binary_candidates_spec(
            view_opt_str(env_override),
            view_opt_str(resource_dir),
            spec_default_faster_whisper_binary_name(),
        ).contains(r->0@),
        exists|probes: Seq<bool>|
            probes.len() == binary_candidates_spec(
                view_opt_str(env_override),
                view_opt_str(resource_dir),
                spec_default_faster_whisper_binary_name(),
            ).len() && view_opt_string(r) == spec_first_usable_binary(
                binary_candidates_spec(
                    view_opt_str(env_override),
                    view_opt_str(resource_dir),
                    spec_default_faster_whisper_binary_name(),
                ),
                probes,
            ),
{
    let candidates = resolve_faster_whisper_binary_candidates(env_override, resource_dir);
    let probes = probe_paths(&candidates);
    let picked = pick_usable_binary(&candidates, &probes);
    proof {
        lemma_bare_name_candidate(
            view_opt_str(env_override),
            view_opt_str(resource_dir),
            spec_default_faster_whisper_binary_name(),
        );
        lemma_default_faster_whisper_binary_name_bare();
        let views = views_of(candidates@);
        let j = choose|j: int|
            #![trigger views[j]]
            0 <= j < views.len() && views[j] == spec_default_faster_whisper_binary_name();
        lemma_first_usable_some(views, probes@, j);
    }
    picked
}

/// The bare binary name is always among the de-duplicated candidates.
proof fn lemma_bare_name_candidate(
    env_override: Option<Seq<char>>,
    resource_dir: Option<Seq<char>>,
    binary_name: Seq<char>,
)
    ensures
        binary_candidates_spec(env_override, resource_dir, binary_name).contains(binary_name),
{
    let raw = raw_binary_candidates(env_override, resource_dir, binary_name);
    assert(raw[raw.len() - 1] == binary_name);
    lemma_dedupe_prefix_contains(raw, raw.len() as int, binary_name);
}

/// The directories the faster-whisper model cache may live in, probed in
/// order; when none exists the cache goes under the host-supplied base.
pub open spec fn cache_dir_candidates(resource_dir: Option<Seq<char>>) -> Seq<Seq<char>> {
    (match resource_dir {
        Some(rd) => seq![
            join_spec(join_spec(rd, "models"@), "faster-whisper-cache"@),
            join_spec(
                join_spec(join_spec(rd, "resources"@), "models"@),
                "faster-whisper-cache"@,
            ),
            join_spec(rd, "faster-whisper-cache"@),
        ],
        None => Seq::empty(),
    }) + seq![
        join_spec(
            join_spec("src-tauri"@, "resources"@),
            "models"@,
        ) + "/"@ + "faster-whisper-cache"@,
    ]
}

/// The fallback cache location under the host-supplied base directory.
pub open spec fn fallback_cache_dir(cache_base: Seq<char>) -> Seq<char> {
    join_spec(join_spec(cache_base, "sonora-dictation"@), "faster-whisper-cache"@)
}

/// What the cache-directory resolver yields for recorded probe outcomes:
/// the first packaged candidate whose probe found it, else the fallback
/// under the host's cache base.
pub open spec fn spec_resolved_cache_dir(
    candidates: Seq<Seq<char>>,
    probes: Seq<bool>,
    cache_base: Seq<char>,
) -> Seq<char> {
    match crate::paths::spec_first_existing(candidates, probes) {
        Some(dir) => dir,
        None => fallback_cache_dir(cache_base),
    }
}

/// Pick the faster-whisper model cache directory: the first packaged
/// candidate that exists on disk, else the fallback under `cache_base`;
/// the result is pinned as the selection rule applied to the recorded
/// probe outcomes.
pub fn resolve_faster_whisper_model_cache_dir(resource_dir: Option<&str>, cache_base: &str) -> (r:
    String)
    ensures
        cache_dir_candidates(view_opt_str(resource_dir)).contains(r@) || r@ == fallback_cache_dir(
            cache_base@,
        ),
        exists|probes: Seq<bool>|
            probes.len() == cache_dir_candidates(view_opt_str(resource_dir)).len() && r@
                == spec_resolved_cache_dir(
                cache_dir_candidates(view_opt_str(resource_dir)),
                probes,
                cache_base@,
            ),
{
    let mut candidates: Vec<String> = Vec::new();
    match resource_dir {
        Some(resources) => {
            let models = path_join(resources, "models");
            candidates.push(path_join(models.as_str(), "faster-whisper-cache"));
            let nested = path_join(resources, "resources");
            let nested_models = path_join(nested.as_str(), "models");
            candidates.push(path_join(nested_models.as_str(), "faster-whisper-cache"));
            candidates.push(path_join(resources, "faster-whisper-cache"));
        },
        None => {},
    }
    let tree = path_join("src-tauri", "resources");
    let tree_models = path_join(tree.as_str(), "models");
    candidates.push(path_join(tree_models.as_str(), "faster-whisper-cache"));
    proof {
        assert(views_of(candidates@) =~= cache_dir_candidates(view_opt_str(resource_dir)));
    }
    let probes = probe_paths(&candidates);
    let picked = pick_first_existing(&candidates, &probes);
    match picked {
        Some(dir) => {
            proof {
                assert(dir@ == spec_resolved_cache_dir(
                    cache_dir_candidates(view_opt_str(resource_dir)),
                    probes@,
                    cache_base@,
                ));
            }
            dir
        },
        None => {
            let base = path_join(cache_base, "sonora-dictation");
            let fallback = path_join(base.as_str(), "faster-whisper-cache");
            proof {
                assert(fallback@ == spec_resolved_cache_dir(
                    cache_dir_candidates(view_opt_str(resource_dir)),
                    probes@,
                    cache_base@,
                ));
            }
            fallback
        },
    }
}

/// Build the whisper engine: the Unavailable sentinel exactly when the
/// model probe found nothing (`model_exists` records that probe), otherwise
/// a sidecar configuration with the selected binary, the resolved backend
/// and the profile's thread count.
pub fn build_whisper_runtime(spec: EngineSpec, env: &EngineEnvironment) -> (r: RuntimeEngine)
    ensures
        r.diagnostics.active_engine@ == "whisper_cpp"@,
        r.diagnostics.ready == (r.transcriber is Whisper),
        r.diagnostics.description@ == description_spec(r.transcriber),
        r.diagnostics.compute_backend@ == compute_backend_label_of(r.transcriber),
        r.diagnostics.using_gpu == uses_gpu_spec(r.transcriber),
        r.diagnostics.resolved_model_path@ == spec.model_path@,
        views_of(r.diagnostics.checked_binary_paths@) == binary_candidates_spec(
            view_opt_string(env.whisper_binary_env),
            view_opt_string(spec.resource_dir),
            spec_default_binary_name(),
        ),
        r.transcriber is Whisper || r.transcriber is Unavailable,
        r.diagnostics.resolved_binary_path is Some,
        r.diagnostics.model_exists == (r.transcriber is Whisper),
        exists|probes: Seq<bool>|
            probes.len() == binary_candidates_spec(
                view_opt_string(env.whisper_binary_env),
                view_opt_string(spec.resource_dir),
                spec_default_binary_name(),
            ).len() && view_opt_string(r.diagnostics.resolved_binary_path)
                == spec_first_usable_binary(
                binary_candidates_spec(
                    view_opt_string(env.whisper_binary_env),
                    view_opt_string(spec.resource_dir),
                    spec_default_binary_name(),
                ),
                probes,
            ),
        r.transcriber matches RuntimeTranscriber::Whisper(c) ==> {
            &&& c.binary_path@ == r.diagnostics.resolved_binary_path->0@
            &&& c.model_path@ == spec.model_path@
            &&& c.language == spec.language
            &&& c.compute_backend == spec_resolve_compute_backend(
                view_opt_string(env.backend_env),
                spec.whisper_backend_preference,
                env.metadata_backend,
                env.nvidia_gpu_present,
            )
            &&& (spec.model_profile == ModelProfile::Fast ==> 2 <= c.threads <= 6)
            &&& (spec.model_profile == ModelProfile::Balanced ==> 4 <= c.threads <= 8)
        },
        r.transcriber matches RuntimeTranscriber::Unavailable { reason } ==> reason@
            == "model file not found: "@ + spec.model_path@,
{
    let model_exists = path_exists(spec.model_path.as_str());
    let resolved_model_path = spec.model_path.clone();
    let checked_binary_paths = resolve_binary_candidates(
        match &env.whisper_binary_env {
            Some(v) => Some(v.as_str()),
            None => None,
        },
        match &spec.resource_dir {
            Some(v) => Some(v.as_str()),
            None => None,
        },
    );
    let binary_path = resolve_binary_path(
        match &env.whisper_binary_env {
            Some(v) => Some(v.as_str()),
            None => None,
        },
        match &spec.resource_dir {
            Some(v) => Some(v.as_str()),
            None => None,
        },
    );

    let transcriber = if !model_exists {
        let reason = String::from_str("model file not found: ").concat(
            resolved_model_path.as_str(),
        );
        proof {
            assert(reason@ =~= "model file not found: "@ + spec.model_path@);
        }
        RuntimeTranscriber::Unavailable { reason }
    } else {
        match &binary_path {
            Some(binary) => {
                let compute_backend = resolve_compute_backend(
                    match &env.backend_env {
                        Some(v) => Some(v.as_str()),
                        None => None,
                    },
                    spec.whisper_backend_preference,
                    env.metadata_backend,
                    env.nvidia_gpu_present,
                );
                RuntimeTranscriber::Whisper(
                    WhisperSidecarConfig {
                        binary_path: binary.clone(),
                        model_path: spec.model_path.clone(),
                        language: spec.language.clone(),
                        compute_backend,
                        threads: recommended_threads(spec.model_profile, env.logical_cores),
                    },
                )
            },
            None => RuntimeTranscriber::Unavailable {
                reason: String::from_str("whisper sidecar binary not found"),
            },
        }
    };

    let ready = match &transcriber {
        RuntimeTranscriber::Whisper(_) => true,
        _ => false,
    };
    let description = transcriber.description();
    let compute_backend_label = transcriber.compute_backend_label();
    let using_gpu = transcriber.uses_gpu();

    RuntimeEngine {
        diagnostics: RuntimeEngineDiagnostics {
            ready,
            active_engine: String::from_str("whisper_cpp"),
            description,
            compute_backend: compute_backend_label,
            using_gpu,
            resolved_binary_path: binary_path,
            checked_binary_paths,
            resolved_model_path,
            model_exists,
        },
        transcriber,
    }
}

/// Build the faster-whisper engine: the Unavailable sentinel exactly when
/// the model target does not resolve (`model_exists` records that
/// judgment), otherwise a worker configuration with the selected binary,
/// the resolved device, precision and clamped beam size.
pub fn build_faster_whisper_runtime(spec: EngineSpec, env: &EngineEnvironment) -> (r: RuntimeEngine)
    ensures
        r.diagnostics.active_engine@ == "faster_whisper"@,
        r.diagnostics.ready == (r.transcriber is FasterWhisper),
        r.diagnostics.description@ == description_spec(r.transcriber),
        r.diagnostics.using_gpu == uses_gpu_spec(r.transcriber),
        r.diagnostics.resolved_model_path@ == spec.model_path@,
        views_of(r.diagnostics.checked_binary_paths@) == binary_candidates_spec(
            view_opt_string(env.faster_whisper_binary_env),
            view_opt_string(spec.resource_dir),
            spec_default_faster_whisper_binary_name(),
        ),
        r.transcriber is FasterWhisper || r.transcriber is Unavailable,
        r.diagnostics.resolved_binary_path is Some,
        r.diagnostics.model_exists == (r.transcriber is FasterWhisper),
        exists|on_disk: bool|
            r.diagnostics.model_exists == spec_model_resolvable(
                trim_spec(spec.model_path@),
                on_disk,
            ),
        exists|probes: Seq<bool>|
            probes.len() == binary_candidates_spec(
                view_opt_string(env.faster_whisper_binary_env),
                view_opt_string(spec.resource_dir),
                spec_default_faster_whisper_binary_name(),
            ).len() && view_opt_string(r.diagnostics.resolved_binary_path)
                == spec_first_usable_binary(
                binary_candidates_spec(
                    view_opt_string(env.faster_whisper_binary_env),
                    view_opt_string(spec.resource_dir),
                    spec_default_faster_whisper_binary_name(),
                ),
                probes,
            ),
        r.diagnostics.compute_backend@ == spec_resolve_faster_whisper_device(
            view_opt_string(env.backend_env),
            spec.whisper_backend_preference,
            env.nvidia_gpu_present,
        ),
        trim_spec(spec.model_path@).len() == 0 ==> r.transcriber is Unavailable,
        trim_spec(spec.model_path@).len() > 0 && spec_statically_resolvable_model(
            trim_spec(spec.model_path@),
        ) ==> r.transcriber is FasterWhisper,
        r.transcriber matches RuntimeTranscriber::FasterWhisper(c) ==> {
            &&& c.binary_path@ == r.diagnostics.resolved_binary_path->0@
            &&& c.model@ == spec.model_path@
            &&& c.language == spec.language
            &&& c.device@ == spec_resolve_faster_whisper_device(
                view_opt_string(env.backend_env),
                spec.whisper_backend_preference,
                env.nvidia_gpu_present,
            )
            &&& c.compute_type@ == spec_resolve_faster_whisper_compute_type(
                c.device@,
                spec.faster_whisper_compute_type,
            )
            &&& 1 <= c.beam_size <= 8
            &&& (1 <= spec.faster_whisper_beam_size <= 8 ==> c.beam_size
                == spec.faster_whisper_beam_size)
        },
        r.transcriber matches RuntimeTranscriber::Unavailable { reason } ==> reason@
            == "faster-whisper model target not found: "@ + spec.model_path@,
{
    let resolved_model_path = spec.model_path.clone();
    let checked_binary_paths = resolve_faster_whisper_binary_candidates(
        match &env.faster_whisper_binary_env {
            Some(v) => Some(v.as_str()),
            None => None,
        },
        match &spec.resource_dir {
            Some(v) => Some(v.as_str()),
            None => None,
        },
    );
    let binary_path = resolve_faster_whisper_binary_path(
        match &env.faster_whisper_binary_env {
            Some(v) => Some(v.as_str()),
            None => None,
        },
        match &spec.resource_dir {
            Some(v) => Some(v.as_str()),
            None => None,
        },
    );
    let model_exists = is_resolvable_faster_whisper_model(resolved_model_path.as_str());
    let device = resolve_faster_whisper_device(
        match &env.backend_env {
            Some(v) => Some(v.as_str()),
            None => None,
        },
        spec.whisper_backend_preference,
        env.nvidia_gpu_present,
    );
    let compute_type = resolve_faster_whisper_compute_type(
        device.as_str(),
        spec.faster_whisper_compute_type,
    );
    let model_cache_dir = resolve_faster_whisper_model_cache_dir(
        match &spec.resource_dir {
            Some(v) => Some(v.as_str()),
            None => None,
        },
        env.cache_base.as_str(),
    );

    let transcriber = if !model_exists {
        let reason = String::from_str("faster-whisper model target not found: ").concat(
            resolved_model_path.as_str(),
        );
        proof {
            assert(reason@ =~= "faster-whisper model target not found: "@ + spec.model_path@);
        }
        RuntimeTranscriber::Unavailable { reason }
    } else {
        match &binary_path {
            Some(binary) => RuntimeTranscriber::FasterWhisper(
                FasterWhisperSidecarConfig {
                    binary_path: binary.clone(),
                    model: resolved_model_path.clone(),
                    model_cache_dir,
                    language: spec.language.clone(),
                    device: device.clone(),
                    compute_type,
                    beam_size: if spec.faster_whisper_beam_size < 1 {
                        1
                    } else if spec.faster_whisper_beam_size > 8 {
                        8
                    } else {
                        spec.faster_whisper_beam_size
                    },
                },
            ),
            None => RuntimeTranscriber::Unavailable {
                reason: String::from_str(
                    "faster-whisper worker binary not found (run pnpm sidecar:setup:faster-whisper)",
                ),
            },
        }
    };

    let ready = match &transcriber {
        RuntimeTranscriber::FasterWhisper(_) => true,
        _ => false,
    };
    let description = transcriber.description();
    let using_gpu = transcriber.uses_gpu();

    RuntimeEngine {
        diagnostics: RuntimeEngineDiagnostics {
            ready,
            active_engine: String::from_str("faster_whisper"),
            description,
            compute_backend: device,
            using_gpu,
            resolved_binary_path: binary_path,
            checked_binary_paths,
            resolved_model_path,
            model_exists,
        },
        transcriber,
    }
}

/// Build the engine the spec selects.
pub fn build_runtime_engine(spec: EngineSpec, env: &EngineEnvironment) -> (r: RuntimeEngine)
    ensures
        spec.engine == SttEngine::WhisperCpp ==> r.diagnostics.active_engine@ == "whisper_cpp"@,
        spec.engine == SttEngine::FasterWhisper ==> r.diagnostics.active_engine@
            == "faster_whisper"@,
        r.diagnostics.description@ == description_spec(r.transcriber),
        r.diagnostics.ready == (r.transcriber is Whisper || r.transcriber is FasterWhisper),
        r.diagnostics.model_exists == r.diagnostics.ready,
        r.diagnostics.resolved_binary_path is Some,
        spec.engine == SttEngine::WhisperCpp ==> r.transcriber is Whisper || r.transcriber
            is Unavailable,
        spec.engine == SttEngine::FasterWhisper ==> r.transcriber is FasterWhisper
            || r.transcriber is Unavailable,
        spec.engine == SttEngine::WhisperCpp ==> (r.transcriber matches
            RuntimeTranscriber::Unavailable { reason } ==> reason@ == "model file not found: "@
            + spec.model_path@),
        spec.engine == SttEngine::FasterWhisper ==> (r.transcriber matches
            RuntimeTranscriber::Unavailable { reason } ==> reason@
            == "faster-whisper model target not found: "@ + spec.model_path@),
        r.transcriber matches RuntimeTranscriber::Whisper(c) ==> {
            &&& c.model_path@ == spec.model_path@
            &&& c.language == spec.language
            &&& c.compute_backend == spec_resolve_compute_backend(
                view_opt_string(env.backend_env),
                spec.whisper_backend_preference,
                env.metadata_backend,
                env.nvidia_gpu_present,
            )
        },
        r.transcriber matches RuntimeTranscriber::FasterWhisper(c) ==> {
            &&& c.model@ == spec.model_path@
            &&& c.language == spec.language
            &&& c.device@ == spec_resolve_faster_whisper_device(
                view_opt_string(env.backend_env),
                spec.whisper_backend_preference,
                env.nvidia_gpu_present,
            )
        },
        r.transcriber matches RuntimeTranscriber::Whisper(c) ==> exists|probes: Seq<bool>|
            probes.len() == binary_candidates_spec(
                view_opt_string(env.whisper_binary_env),
                view_opt_string(spec.resource_dir),
                spec_default_binary_name(),
            ).len() && Some(c.binary_path@) == spec_first_usable_binary(
                binary_candidates_spec(
                    view_opt_string(env.whisper_binary_env),
                    view_opt_string(spec.resource_dir),
                    spec_default_binary_name(),
                ),
                probes,
            ),
        r.transcriber matches RuntimeTranscriber::FasterWhisper(c) ==> exists|probes: Seq<bool>|
            probes.len() == binary_candidates_spec(
                view_opt_string(env.faster_whisper_binary_env),
                view_opt_string(spec.resource_dir),
                spec_default_faster_whisper_binary_name(),
            ).len() && Some(c.binary_path@) == spec_first_usable_binary(
                binary_candidates_spec(
                    view_opt_string(env.faster_whisper_binary_env),
                    view_opt_string(spec.resource_dir),
                    spec_default_faster_whisper_binary_name(),
                ),
                probes,
            ),
{
    match spec.engine {
        SttEngine::WhisperCpp => build_whisper_runtime(spec, env),
        SttEngine::FasterWhisper => build_faster_whisper_runtime(spec, env),
    }
}

/// Build a whisper engine from the essential settings, defaulting the
/// faster-whisper knobs.
pub fn build_runtime_transcriber(
    language: &str,
    model_profile: ModelProfile,
    model_path: String,
    backend_preference: WhisperBackendPreference,
    resource_dir: Option<&str>,
    env: &EngineEnvironment,
) -> (r: RuntimeTranscriber)
    ensures
        r is Whisper || r is Unavailable,
        r matches RuntimeTranscriber::Unavailable { reason } ==> reason@
            == "model file not found: "@ + model_path@,
        r matches RuntimeTranscriber::Whisper(c) ==> {
            &&& c.model_path@ == model_path@
            &&& c.language@ == language@
            &&& c.compute_backend == spec_resolve_compute_backend(
                view_opt_string(env.backend_env),
                backend_preference,
                env.metadata_backend,
                env.nvidia_gpu_present,
            )
        },
        r matches RuntimeTranscriber::Whisper(c) ==> exists|probes: Seq<bool>|
            probes.len() == binary_candidates_spec(
                view_opt_string(env.whisper_binary_env),
                view_opt_str(resource_dir),
                spec_default_binary_name(),
            ).len() && Some(c.binary_path@) == spec_first_usable_binary(
                binary_candidates_spec(
                    view_opt_string(env.whisper_binary_env),
                    view_opt_str(resource_dir),
                    spec_default_binary_name(),
                ),
                probes,
            ),
{
    let spec = EngineSpec {
        engine: SttEngine::WhisperCpp,
        language: String::from_str(language),
        model_profile,
        model_path,
        whisper_backend_preference: backend_preference,
        faster_whisper_compute_type: FasterWhisperComputeType::Auto,
        faster_whisper_beam_size: 1,
        resource_dir: match resource_dir {
            Some(v) => Some(String::from_str(v)),
            None => None,
        },
    };
    let engine = build_runtime_engine(spec, env);
    proof {
        assert(view_opt_string(spec.resource_dir) == view_opt_str(resource_dir));
    }
    engine.transcriber
}

} // verus!
