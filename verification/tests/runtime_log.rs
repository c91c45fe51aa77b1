use sonora_core::runtime_log::{clamp_log_limit, recent_lines};

#[test]
fn recent_lines_keep_the_newest_entries() {
    let lines = vec![
        "first".to_string(),
        "second".to_string(),
        "third".to_string(),
    ];
    let recent = recent_lines(&lines, 2);
    assert_eq!(recent, vec!["second".to_string(), "third".to_string()]);
    let all = recent_lines(&lines, 10);
    assert_eq!(all, lines);
}

#[test]
fn log_limit_is_clamped_into_the_served_range() {
    assert_eq!(clamp_log_limit(None), 40);
    assert_eq!(clamp_log_limit(Some(0)), 1);
    assert_eq!(clamp_log_limit(Some(75)), 75);
    assert_eq!(clamp_log_limit(Some(900)), 200);
}
