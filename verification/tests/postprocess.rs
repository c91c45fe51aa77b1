use sonora_core::postprocess::{
    is_duplicate_transcript, normalize_transcript, select_fresh_transcript,
};

#[test]
fn normalizes_whitespace_and_punctuation() {
    let output = normalize_transcript("   hello   world   ");
    assert_eq!(output, "Hello world.");
}

#[test]
fn keeps_existing_terminal_punctuation() {
    assert_eq!(normalize_transcript("what now?"), "What now?");
}

#[test]
fn normalizes_the_documented_examples() {
    assert_eq!(normalize_transcript("  hello   world  "), "Hello world.");
    assert_eq!(normalize_transcript(""), "");
    assert_eq!(normalize_transcript(" \t\n "), "");
    assert_eq!(normalize_transcript("done!"), "Done!");
}

#[test]
fn duplicate_detection_ignores_case() {
    assert!(is_duplicate_transcript(Some("Hello world."), "hello world."));
    assert!(!is_duplicate_transcript(Some("Hello world."), "different"));
}

#[test]
fn empty_current_is_always_a_duplicate() {
    assert!(is_duplicate_transcript(Some("Hello world."), ""));
    assert!(is_duplicate_transcript(None, ""));
    assert!(is_duplicate_transcript(None, "   "));
    assert!(!is_duplicate_transcript(None, "fresh"));
}

#[test]
fn selects_fresh_transcript_once() {
    let mut last = None;

    let first = select_fresh_transcript(&mut last, Some("  hello   world  ".to_string()));
    assert_eq!(first.as_deref(), Some("Hello world."));
    assert_eq!(last.as_deref(), Some("Hello world."));

    let duplicate = select_fresh_transcript(&mut last, Some("hello world.".to_string()));
    assert!(duplicate.is_none());

    let empty = select_fresh_transcript(&mut last, Some("   ".to_string()));
    assert!(empty.is_none());

    let absent = select_fresh_transcript(&mut last, None);
    assert!(absent.is_none());
}
