use sonora_core::audio::{downsample_to_16k, validate_audio_format};

#[test]
fn validates_target_audio_format() {
    assert!(validate_audio_format(16_000, 1).is_ok());
    assert!(validate_audio_format(48_000, 1).is_err());
    assert!(validate_audio_format(16_000, 2).is_err());
}

#[test]
fn downsamples_from_48k_to_16k() {
    let input = vec![16_384i16; 4_800];
    let output = downsample_to_16k(&input, 48_000);
    assert_eq!(output.len(), 1_600);
}

#[test]
fn returns_empty_when_source_rate_is_below_target() {
    let input = vec![16_384i16; 2_400];
    let output = downsample_to_16k(&input, 8_000);
    assert!(output.is_empty());
}

#[test]
fn downsampling_is_identity_at_target_rate() {
    let input = vec![5i16, -7, 100, -32_768, 32_767];
    let output = downsample_to_16k(&input, 16_000);
    assert_eq!(output, input);
}

#[test]
fn downsampling_averages_each_bucket() {
    let input = vec![1i16, 2, 3, 10, 20, 30];
    let output = downsample_to_16k(&input, 48_000);
    assert_eq!(output, vec![2i16, 20]);
}

#[test]
fn downsampling_rounds_negative_averages_toward_zero() {
    let input = vec![-1i16, -1, -1, -2, -2, -3];
    let output = downsample_to_16k(&input, 48_000);
    assert_eq!(output, vec![-1i16, -2]);
}

#[test]
fn format_errors_name_the_offending_value() {
    let rate_error = validate_audio_format(48_000, 1).unwrap_err();
    assert_eq!(rate_error, "invalid sample rate: expected 16000, got 48000");
    let channel_error = validate_audio_format(16_000, 2).unwrap_err();
    assert_eq!(channel_error, "invalid channel count: expected 1, got 2");
}
