use project_dashboard::vcs::{
    extract_git_remote, extract_log_timestamp, get_last_modified_date, pick_last_modified,
};

#[test]
fn remote_url_extracted_and_trimmed() {
    let config = "[core]\n\trepositoryformatversion = 0\n[remote \"origin\"]\n\turl = https://example.com/me/repo.git\n\tfetch = +refs/heads/*:refs/remotes/origin/*\n".to_string();
    let r = extract_git_remote(Some(&config));
    assert_eq!(r, Some("https://example.com/me/repo.git".to_string()));
}

#[test]
fn remote_url_keeps_text_after_later_equals() {
    let config = "[remote \"origin\"]\n  url = https://example.com/a=b\n".to_string();
    let r = extract_git_remote(Some(&config));
    assert_eq!(r, Some("https://example.com/a=b".to_string()));
}

#[test]
fn no_url_line_yields_none() {
    let config = "[core]\n\tbare = false\n".to_string();
    let r = extract_git_remote(Some(&config));
    assert_eq!(r, None);
}

#[test]
fn missing_config_yields_none() {
    assert_eq!(extract_git_remote(None), None);
}

#[test]
fn log_timestamp_from_last_line() {
    let log = "0000 1111 One <one@example.com> 1600000000 +0000\tcommit: first\n1111 2222 Two <two@example.com> 1700000000 +0900\tcommit: second\n".to_string();
    let ts = extract_log_timestamp(&log);
    assert_eq!(ts, Some(1700000000));
}

#[test]
fn log_without_angle_bracket_yields_none() {
    let log = "a line with no marker\n".to_string();
    assert_eq!(extract_log_timestamp(&log), None);
}

#[test]
fn empty_log_yields_none() {
    assert_eq!(extract_log_timestamp(""), None);
}

#[test]
fn commit_time_renders_as_rfc3339() {
    let log = "1111 2222 Two <two@example.com> 1700000000 +0900\tcommit: x\n".to_string();
    let r = get_last_modified_date(Some(&log), None);
    assert_eq!(r, "2023-11-14T22:13:20+00:00");
}

#[test]
fn directory_time_used_when_log_unusable() {
    let r = get_last_modified_date(None, Some(0));
    assert_eq!(r, "1970-01-01T00:00:00+00:00");
}

#[test]
fn current_time_used_as_last_resort() {
    let r = get_last_modified_date(None, None);
    // Whatever instant it is, the rendering carries a date separator.
    assert!(r.contains('T'));
    assert!(r.len() >= 19);
}

#[test]
fn precedence_of_sources() {
    let r = pick_last_modified(
        Some("a".to_string()),
        Some("b".to_string()),
        "c".to_string(),
    );
    assert_eq!(r, "a");
    let r = pick_last_modified(None, Some("b".to_string()), "c".to_string());
    assert_eq!(r, "b");
    let r = pick_last_modified(None, None, "c".to_string());
    assert_eq!(r, "c");
}
