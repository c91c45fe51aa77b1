use sonora_core::protocol::{
    encode_chunk_wav, handle_worker_line, handle_worker_read, interpret_sidecar_output,
    interpret_worker_reply, worker_request_line,
};

#[test]
fn worker_request_line_is_one_json_object() {
    let line = worker_request_line(
        "id-7",
        "/tmp/sonora-7.wav",
        "en",
        "small.en",
        "cpu",
        "int8",
        2,
    );
    assert_eq!(
        line,
        "{\"op\":\"transcribe\",\"id\":\"id-7\",\"audio_path\":\"/tmp/sonora-7.wav\",\
         \"language\":\"en\",\"model\":\"small.en\",\"device\":\"cpu\",\
         \"compute_type\":\"int8\",\"beam_size\":2}"
    );
}

#[test]
fn worker_request_line_escapes_like_the_json_encoder() {
    let line = worker_request_line("a\"b\\c\nd", "/tmp/x.wav", "en", "m", "cpu", "int8", 1);
    let expected_id = "\"a\\\"b\\\\c\\nd\"";
    assert!(line.contains(expected_id));
    let reparsed: serde_json::Value = serde_json::from_str(&line).expect("line should be JSON");
    assert_eq!(
        reparsed.get("id").and_then(serde_json::Value::as_str),
        Some("a\"b\\c\nd")
    );
    assert_eq!(
        reparsed.get("beam_size").and_then(serde_json::Value::as_u64),
        Some(1)
    );
}

#[test]
fn successful_round_trip_returns_trimmed_text() {
    let result = handle_worker_line("{\"ok\":true,\"text\":\"  hello there \",\"error\":null}");
    assert_eq!(result, Ok("hello there".to_string()));
}

#[test]
fn worker_error_is_surfaced() {
    let result = handle_worker_line("{\"ok\":false,\"text\":null,\"error\":\"model load failed\"}");
    assert_eq!(result, Err("model load failed".to_string()));
}

#[test]
fn failure_without_error_text_gets_the_fixed_message() {
    let result = interpret_worker_reply(false, None, None);
    assert_eq!(result, Err("unknown faster-whisper worker error".to_string()));
}

#[test]
fn empty_worker_text_is_rejected() {
    let result = interpret_worker_reply(true, Some("   ".to_string()), None);
    assert_eq!(
        result,
        Err("faster-whisper worker returned empty transcript".to_string())
    );
}

#[test]
fn malformed_reply_is_a_protocol_error() {
    let result = handle_worker_line("not json at all");
    assert_eq!(result, Err("invalid faster-whisper response".to_string()));
    let missing_ok = handle_worker_line("{\"text\":\"x\"}");
    assert_eq!(missing_ok, Err("invalid faster-whisper response".to_string()));
}

#[test]
fn zero_byte_read_discards_the_worker_handle() {
    let step = handle_worker_read(0, "");
    assert!(!step.keep_worker);
    assert_eq!(
        step.outcome,
        Err("faster-whisper worker closed stdout unexpectedly".to_string())
    );
}

#[test]
fn successful_read_keeps_the_worker_handle() {
    let step = handle_worker_read(46, "{\"ok\":true,\"text\":\" fine \",\"error\":null}\n");
    assert!(step.keep_worker);
    assert_eq!(step.outcome, Ok("fine".to_string()));

    let failing = handle_worker_read(9, "not json\n");
    assert!(failing.keep_worker);
    assert_eq!(
        failing.outcome,
        Err("invalid faster-whisper response".to_string())
    );
}

#[test]
fn wav_encoding_produces_the_expected_layout() {
    let samples = vec![0i16, 1000, -1000, 32_767, -32_768];
    let bytes = encode_chunk_wav(&samples).expect("encoding should succeed");
    assert_eq!(bytes.len(), 44 + 2 * samples.len());
    assert_eq!(&bytes[0..4], b"RIFF");
    assert_eq!(&bytes[8..12], b"WAVE");
    assert_eq!(&bytes[44..46], &0i16.to_le_bytes());
    assert_eq!(&bytes[46..48], &1000i16.to_le_bytes());
}

#[test]
fn empty_chunk_is_rejected_before_encoding() {
    let result = encode_chunk_wav(&[]);
    assert_eq!(result, Err("cannot transcribe empty audio chunk".to_string()));
}

#[test]
fn sidecar_failure_reports_status_and_stderr() {
    let result = interpret_sidecar_output(
        false,
        "exit status: 1",
        " model missing \n",
        None,
        String::new(),
    );
    assert_eq!(
        result,
        Err("whisper sidecar exited with status exit status: 1: model missing".to_string())
    );
}

#[test]
fn sidecar_prefers_the_text_file_over_stdout() {
    let result = interpret_sidecar_output(
        true,
        "exit status: 0",
        "",
        Some(" from file \n".to_string()),
        "from stdout".to_string(),
    );
    assert_eq!(result, Ok("from file".to_string()));

    let fallback = interpret_sidecar_output(
        true,
        "exit status: 0",
        "",
        None,
        " from stdout \n".to_string(),
    );
    assert_eq!(fallback, Ok("from stdout".to_string()));
}

#[test]
fn empty_sidecar_transcript_is_an_error() {
    let result = interpret_sidecar_output(true, "exit status: 0", "", Some("  ".to_string()), String::new());
    assert_eq!(
        result,
        Err("whisper sidecar returned empty transcript".to_string())
    );
}
