use project_dashboard::readme::{extract_description, summarize};

#[test]
fn title_and_body_line() {
    let content = "# Demo Tool\nA tool that does demo things.\n".to_string();
    let d = extract_description(Some(&content));
    assert_eq!(d, "Demo Tool A tool that does demo things.");
}

#[test]
fn missing_file_yields_placeholder() {
    let d = extract_description(None);
    assert_eq!(d, "no description");
}

#[test]
fn empty_file_yields_placeholder() {
    let content = String::new();
    let d = extract_description(Some(&content));
    assert_eq!(d, "no description");
}

#[test]
fn summarize_is_repeatable() {
    let content = "# Title\n\nSomething rather long here.\n".to_string();
    let a = summarize(&content);
    let b = summarize(&content);
    assert_eq!(a, b);
    assert_eq!(a, "Title Something rather long here.");
}

#[test]
fn no_heading_yields_placeholder() {
    let content = "just a plain line without any heading\n".to_string();
    let d = extract_description(Some(&content));
    assert_eq!(d, "no description");
}

#[test]
fn first_heading_stays_the_title() {
    let content = "# First\n## Second\nThis body line is long enough.\n".to_string();
    let d = extract_description(Some(&content));
    assert_eq!(d, "First This body line is long enough.");
}

#[test]
fn first_heading_kept_without_body() {
    let content = "# First\n## Second\n".to_string();
    let d = extract_description(Some(&content));
    assert_eq!(d, "First");
}

#[test]
fn short_body_lines_are_skipped() {
    let content = "# Name\nshort\nA sufficiently long line.\n".to_string();
    let d = extract_description(Some(&content));
    assert_eq!(d, "Name A sufficiently long line.");
}

#[test]
fn title_alone_when_no_qualifying_body() {
    let content = "# OnlyTitle\nshort\n".to_string();
    let d = extract_description(Some(&content));
    assert_eq!(d, "OnlyTitle");
}

#[test]
fn heading_markers_and_whitespace_stripped() {
    let content = "###   Deep Title   \n".to_string();
    let d = extract_description(Some(&content));
    assert_eq!(d, "Deep Title");
}

#[test]
fn truncation_counts_characters_not_bytes() {
    let long: String = "é".repeat(200);
    let content = format!("# {}\n", long);
    let d = extract_description(Some(&content));
    assert_eq!(d.chars().count(), 150);
    let expected: String = "é".repeat(150);
    assert_eq!(d, expected);
}

#[test]
fn truncation_handles_wide_characters() {
    let hangul: String = "가나다라마".repeat(40);
    let content = format!("# {}\nbody line long enough here\n", hangul);
    let d = extract_description(Some(&content));
    assert_eq!(d.chars().count(), 150);
    assert!(hangul.starts_with(&d[..]));
}

#[test]
fn exactly_150_characters_kept() {
    let title: String = "x".repeat(150);
    let content = format!("# {}\n", title);
    let d = extract_description(Some(&content));
    assert_eq!(d, title);
}

#[test]
fn crlf_lines_are_handled() {
    let content = "# Win Tool\r\nA windows style body line.\r\n".to_string();
    let d = extract_description(Some(&content));
    assert_eq!(d, "Win Tool A windows style body line.");
}
