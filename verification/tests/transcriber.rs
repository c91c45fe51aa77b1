use sonora_core::config::{
    FasterWhisperComputeType, ModelProfile, SttEngine, WhisperBackendPreference,
};
use sonora_core::transcriber::{
    build_runtime_engine, build_runtime_transcriber, default_faster_whisper_model,
    pick_usable_binary,
    is_known_faster_whisper_model_name, is_resolvable_faster_whisper_model,
    map_preference_to_compute_backend, metadata_backend_hint, metadata_path_for_binary,
    parse_backend_preference, recommended_threads, resolve_binary_candidates,
    resolve_compute_backend, resolve_faster_whisper_binary_candidates,
    resolve_faster_whisper_compute_type, resolve_faster_whisper_device, EngineEnvironment,
    EngineSpec, RuntimeTranscriber, StubTranscriber, Transcriber, WhisperComputeBackend,
    WhisperSidecarConfig,
};

fn plain_environment() -> EngineEnvironment {
    EngineEnvironment {
        backend_env: None,
        whisper_binary_env: None,
        faster_whisper_binary_env: None,
        metadata_backend: None,
        nvidia_gpu_present: false,
        logical_cores: 4,
        cache_base: "/tmp".to_string(),
    }
}

#[test]
fn stub_transcriber_returns_text() {
    let text = StubTranscriber
        .transcribe(&vec![0i16; 2048])
        .expect("stub transcriber should return text");
    assert!(!text.is_empty());
}

#[test]
fn builds_whisper_command_args() {
    let config = WhisperSidecarConfig {
        binary_path: "./bin/whisper".to_string(),
        model_path: "./models/ggml-base.en-q5_1.bin".to_string(),
        language: "en".to_string(),
        threads: 2,
        compute_backend: WhisperComputeBackend::Cpu,
    };
    let args = config.command_args("./tmp/chunk.wav", "./tmp/out");

    assert!(args.iter().any(|arg| arg == "-m"));
    assert!(args.iter().any(|arg| arg == "-f"));
    assert!(args.iter().any(|arg| arg == "-l"));
    assert!(args.iter().any(|arg| arg == "-t"));
    assert!(args.iter().any(|arg| arg == "-np"));
    assert!(args.iter().any(|arg| arg == "-otxt"));
    assert!(args.iter().any(|arg| arg == "-of"));
    assert!(args.iter().any(|arg| arg == "en"));
    assert!(args.iter().any(|arg| arg == "-ng"));
}

#[test]
fn whisper_command_args_do_not_disable_gpu_for_cuda_backend() {
    let config = WhisperSidecarConfig {
        binary_path: "./bin/whisper".to_string(),
        model_path: "./models/ggml-base.en-q5_1.bin".to_string(),
        language: "en".to_string(),
        threads: 6,
        compute_backend: WhisperComputeBackend::Cuda,
    };

    let args = config.command_args("./tmp/chunk.wav", "./tmp/out");
    assert!(!args.iter().any(|arg| arg == "-ng"));
}

#[test]
fn command_args_render_threads_in_decimal() {
    let config = WhisperSidecarConfig {
        binary_path: "./bin/whisper".to_string(),
        model_path: "m.bin".to_string(),
        language: "en".to_string(),
        threads: 12,
        compute_backend: WhisperComputeBackend::Cuda,
    };
    let args = config.command_args("a.wav", "out");
    assert_eq!(
        args,
        vec![
            "-m",
            "m.bin",
            "-f",
            "a.wav",
            "-l",
            "en",
            "-t",
            "12",
            "-np",
            "--no-timestamps",
            "-otxt",
            "-of",
            "out",
        ]
    );
}

#[test]
fn parses_backend_preference_variants() {
    assert_eq!(
        parse_backend_preference(Some("cuda")),
        Some(WhisperBackendPreference::Cuda)
    );
    assert_eq!(
        parse_backend_preference(Some("NVIDIA")),
        Some(WhisperBackendPreference::Cuda)
    );
    assert_eq!(
        parse_backend_preference(Some("cpu")),
        Some(WhisperBackendPreference::Cpu)
    );
    assert_eq!(
        parse_backend_preference(Some("auto")),
        Some(WhisperBackendPreference::Auto)
    );
    assert_eq!(parse_backend_preference(Some("")), None);
    assert_eq!(parse_backend_preference(Some("unknown")), None);
}

#[test]
fn maps_explicit_backend_preferences_without_auto_detection() {
    let cpu = map_preference_to_compute_backend(WhisperBackendPreference::Cpu);
    let cuda = map_preference_to_compute_backend(WhisperBackendPreference::Cuda);

    assert_eq!(cpu, WhisperComputeBackend::Cpu);
    assert_eq!(cuda, WhisperComputeBackend::Cuda);
}

#[test]
fn metadata_hint_wins_backend_resolution_under_auto() {
    assert_eq!(
        resolve_compute_backend(
            None,
            WhisperBackendPreference::Auto,
            Some(WhisperComputeBackend::Cuda),
            false,
        ),
        WhisperComputeBackend::Cuda
    );
    assert_eq!(
        resolve_compute_backend(None, WhisperBackendPreference::Auto, None, false),
        WhisperComputeBackend::Cpu
    );
    assert_eq!(
        resolve_compute_backend(None, WhisperBackendPreference::Auto, None, true),
        WhisperComputeBackend::Cuda
    );
    assert_eq!(
        resolve_compute_backend(
            Some("cpu"),
            WhisperBackendPreference::Cuda,
            Some(WhisperComputeBackend::Cuda),
            true,
        ),
        WhisperComputeBackend::Cpu
    );
}

#[test]
fn metadata_backend_hint_reads_field_values() {
    assert_eq!(
        metadata_backend_hint(Some("cuda")),
        Some(WhisperComputeBackend::Cuda)
    );
    assert_eq!(
        metadata_backend_hint(Some("cpu")),
        Some(WhisperComputeBackend::Cpu)
    );
    assert_eq!(metadata_backend_hint(Some("nonsense")), None);
    assert_eq!(metadata_backend_hint(None), None);
}

#[test]
fn metadata_path_sits_next_to_the_binary() {
    assert_eq!(
        metadata_path_for_binary("resources/bin/whisper-cli").as_deref(),
        Some("resources/bin/whisper-sidecar.json")
    );
    assert_eq!(
        metadata_path_for_binary("whisper-cli").as_deref(),
        Some("whisper-sidecar.json")
    );
    assert_eq!(metadata_path_for_binary(""), None);
}

#[test]
fn resolves_runtime_transcriber_as_unavailable_for_missing_model() {
    let transcriber = build_runtime_transcriber(
        "en",
        ModelProfile::Balanced,
        "./missing.bin".to_string(),
        WhisperBackendPreference::Auto,
        Some("/tmp/resources"),
        &plain_environment(),
    );

    match transcriber {
        RuntimeTranscriber::Unavailable { reason } => {
            assert!(reason.contains("model file not found"));
        }
        _ => panic!("expected unavailable transcriber"),
    }
}

#[test]
fn binary_candidates_include_path_binary_name() {
    let candidates = resolve_binary_candidates(None, None);
    assert!(candidates.iter().any(|path| path == "whisper-cli"));
}

#[test]
fn usable_binary_pick_prefers_the_first_bare_or_existing_candidate() {
    let candidates = vec![
        "bin/whisper-cli".to_string(),
        "resources/bin/whisper-cli".to_string(),
        "whisper-cli".to_string(),
    ];
    // No probe found anything: the bare name is still usable.
    assert_eq!(
        pick_usable_binary(&candidates, &vec![false, false, false]),
        Some("whisper-cli".to_string())
    );
    // A probed path earlier in the order wins over the bare name.
    assert_eq!(
        pick_usable_binary(&candidates, &vec![false, true, false]),
        Some("resources/bin/whisper-cli".to_string())
    );
    // A bare name earlier in the order wins without any probe.
    let with_bare_first = vec!["whisper-cli".to_string(), "bin/whisper-cli".to_string()];
    assert_eq!(
        pick_usable_binary(&with_bare_first, &vec![false, true]),
        Some("whisper-cli".to_string())
    );
    // Only separated, unprobed candidates: nothing is usable.
    let separated = vec!["bin/a".to_string(), "bin/b".to_string()];
    assert_eq!(pick_usable_binary(&separated, &vec![false, false]), None);
}

#[test]
fn resolving_against_an_empty_file_system_falls_back_to_the_bare_name() {
    // None of the packaged candidate directories exist here, so the
    // selection reaches the bare name left to the OS search path.
    let picked = sonora_core::transcriber::resolve_binary_path(None, Some("/nonexistent-res"));
    assert_eq!(picked, Some("whisper-cli".to_string()));
    let picked_worker = sonora_core::transcriber::resolve_faster_whisper_binary_path(
        None,
        Some("/nonexistent-res"),
    );
    assert_eq!(picked_worker, Some("faster-whisper-worker".to_string()));
}

#[test]
fn faster_whisper_runtime_reports_unavailable_engine() {
    let runtime = build_runtime_engine(
        EngineSpec {
            engine: SttEngine::FasterWhisper,
            language: "en".to_string(),
            model_profile: ModelProfile::Balanced,
            model_path: "./missing-faster-model".to_string(),
            whisper_backend_preference: WhisperBackendPreference::Auto,
            faster_whisper_compute_type: FasterWhisperComputeType::Auto,
            faster_whisper_beam_size: 1,
            resource_dir: None,
        },
        &plain_environment(),
    );

    assert!(!runtime.diagnostics.ready);
    assert_eq!(runtime.diagnostics.active_engine, "faster_whisper");
    assert!(runtime
        .diagnostics
        .description
        .contains("faster-whisper model target not found"));
}

#[test]
fn faster_whisper_defaults_are_profile_aware() {
    assert_eq!(default_faster_whisper_model(ModelProfile::Fast), "tiny.en");
    assert_eq!(
        default_faster_whisper_model(ModelProfile::Balanced),
        "small.en"
    );
}

#[test]
fn faster_whisper_binary_candidates_include_path_binary_name() {
    let candidates = resolve_faster_whisper_binary_candidates(None, None);
    assert!(candidates.iter().any(|path| path == "faster-whisper-worker"));
}

#[test]
fn known_model_names_resolve_without_disk_access() {
    assert!(is_known_faster_whisper_model_name("tiny.en"));
    assert!(is_known_faster_whisper_model_name("distil-large-v3"));
    assert!(!is_known_faster_whisper_model_name("enormous.fr"));
    assert!(is_resolvable_faster_whisper_model("small.en"));
    assert!(is_resolvable_faster_whisper_model("Systran/faster-whisper-tiny"));
    assert!(is_resolvable_faster_whisper_model("openai/whisper-large"));
    assert!(!is_resolvable_faster_whisper_model("   "));
}

#[test]
fn faster_whisper_device_and_compute_type_resolution() {
    assert_eq!(
        resolve_faster_whisper_device(None, WhisperBackendPreference::Cuda, false),
        "cuda"
    );
    assert_eq!(
        resolve_faster_whisper_device(None, WhisperBackendPreference::Auto, false),
        "cpu"
    );
    assert_eq!(
        resolve_faster_whisper_device(Some("gpu"), WhisperBackendPreference::Cpu, false),
        "cuda"
    );
    assert_eq!(
        resolve_faster_whisper_compute_type("cuda", FasterWhisperComputeType::Auto),
        "float16"
    );
    assert_eq!(
        resolve_faster_whisper_compute_type("cpu", FasterWhisperComputeType::Auto),
        "int8"
    );
    assert_eq!(
        resolve_faster_whisper_compute_type("cpu", FasterWhisperComputeType::Float32),
        "float32"
    );
}

#[test]
fn recommended_threads_follow_profile_bounds() {
    assert_eq!(recommended_threads(ModelProfile::Fast, 1), 2);
    assert_eq!(recommended_threads(ModelProfile::Fast, 4), 4);
    assert_eq!(recommended_threads(ModelProfile::Fast, 16), 6);
    assert_eq!(recommended_threads(ModelProfile::Balanced, 1), 4);
    assert_eq!(recommended_threads(ModelProfile::Balanced, 6), 6);
    assert_eq!(recommended_threads(ModelProfile::Balanced, 16), 8);
}
