use project_dashboard::path_join;
use project_dashboard::settings::{default_settings, AppSettings};

#[test]
fn defaults_with_home() {
    let s = default_settings(Some("/home/u".to_string()));
    assert_eq!(s.scan_path, "/home/u/code_workshop");
    assert_eq!(s.terminal_app, "Warp");
    assert_eq!(s.editor_command, "code");
    assert_eq!(
        s.excluded_folders,
        vec![
            "node_modules".to_string(),
            ".git".to_string(),
            ".cache".to_string(),
            "target".to_string(),
            "dist".to_string(),
            "build".to_string(),
            ".next".to_string(),
            ".nuxt".to_string(),
            "venv".to_string(),
            "__pycache__".to_string(),
            ".venv".to_string(),
        ]
    );
}

#[test]
fn defaults_without_home_fall_back_to_root() {
    let s = default_settings(None);
    assert_eq!(s.scan_path, "/code_workshop");
}

#[test]
fn default_impl_fixes_commands() {
    let s = AppSettings::default();
    assert_eq!(s.terminal_app, "Warp");
    assert_eq!(s.editor_command, "code");
    assert!(s.scan_path.ends_with("code_workshop"));
}

#[test]
fn join_adds_separator_only_when_missing() {
    assert_eq!(path_join(&"/a".to_string(), &"b".to_string()), "/a/b");
    assert_eq!(path_join(&"/a/".to_string(), &"b".to_string()), "/a/b");
    assert_eq!(path_join(&"".to_string(), &"b".to_string()), "/b");
}
