use sonora_core::paths::{
    dedupe_paths, file_name_of, is_relative_path, path_join, pick_first_existing,
};

#[test]
fn dedupe_keeps_first_occurrences_in_order() {
    let paths = vec![
        "a/b".to_string(),
        "c".to_string(),
        "a/b".to_string(),
        "d".to_string(),
        "c".to_string(),
    ];
    let deduped = dedupe_paths(paths);
    assert_eq!(
        deduped,
        vec!["a/b".to_string(), "c".to_string(), "d".to_string()]
    );
}

#[test]
fn first_existing_pick_honors_probe_order() {
    let candidates = vec!["a".to_string(), "b".to_string(), "c".to_string()];
    assert_eq!(
        pick_first_existing(&candidates, &vec![false, true, true]),
        Some("b".to_string())
    );
    assert_eq!(
        pick_first_existing(&candidates, &vec![true, false, true]),
        Some("a".to_string())
    );
    assert_eq!(pick_first_existing(&candidates, &vec![false, false, false]), None);
    assert_eq!(pick_first_existing(&Vec::new(), &Vec::new()), None);
}

#[test]
fn join_and_file_name_round_out_path_handling() {
    assert_eq!(path_join("/app/resources", "models/tiny.bin"), "/app/resources/models/tiny.bin");
    assert_eq!(file_name_of("models/ggml-tiny.en-q8_0.bin"), "ggml-tiny.en-q8_0.bin");
    assert_eq!(file_name_of("bare-name"), "bare-name");
    assert!(is_relative_path("models/tiny.bin"));
    assert!(is_relative_path("C:/models/custom.bin"));
    assert!(!is_relative_path("/abs/path"));
}
