use project_dashboard::scanner::{
    is_excluded, scan_all_projects, scan_project, Project, ProjectFiles, ScanError,
    WorkspaceEntry, WorkspaceListing,
};

fn empty_files() -> ProjectFiles {
    ProjectFiles {
        package_json: None,
        pyproject_toml: None,
        requirements_txt: None,
        readme: None,
        git_config: None,
        git_head_log: None,
        dir_mtime: None,
        has_github_workflows: false,
        has_gitlab_ci: false,
        has_travis_ci: false,
        has_test_dir: false,
    }
}

fn entry(name: &str, is_dir: bool, files: ProjectFiles) -> WorkspaceEntry {
    WorkspaceEntry {
        name: name.to_string(),
        is_dir,
        files,
    }
}

fn scan_one(files: ProjectFiles) -> Project {
    scan_project("p".to_string(), "/ws/p".to_string(), &files)
}

#[test]
fn missing_root_fails_with_workspace_not_found() {
    let r = scan_all_projects(
        &"/nowhere".to_string(),
        &Vec::new(),
        WorkspaceListing::Missing,
    );
    assert_eq!(r.unwrap_err(), ScanError::WorkspaceNotFound);
}

#[test]
fn unreadable_root_fails_with_unreadable() {
    let r = scan_all_projects(
        &"/ws".to_string(),
        &Vec::new(),
        WorkspaceListing::Unreadable("permission denied".to_string()),
    );
    assert_eq!(
        r.unwrap_err(),
        ScanError::Unreadable("permission denied".to_string())
    );
}

#[test]
fn error_messages() {
    assert_eq!(
        ScanError::WorkspaceNotFound.message(),
        "workspace path does not exist"
    );
    assert_eq!(
        ScanError::Unreadable("io".to_string()).message(),
        "cannot read workspace directory: io"
    );
}

#[test]
fn node_project_scanned() {
    let json = r#"{"description":"demo","dependencies":{"react":"1"},"scripts":{"test":"x"}}"#;
    let mut files = empty_files();
    files.package_json = Some(json.to_string());
    files.has_test_dir = true;
    let es = vec![entry("app", true, files)];
    let ps = scan_all_projects(
        &"/ws".to_string(),
        &Vec::new(),
        WorkspaceListing::Entries(es),
    )
    .unwrap();
    assert_eq!(ps.len(), 1);
    let p = &ps[0];
    assert_eq!(p.name, "app");
    assert_eq!(p.path, "/ws/app");
    assert_eq!(p.project_type, vec!["nodejs".to_string()]);
    assert_eq!(p.description, "demo");
    assert_eq!(p.tech_stack, vec!["react".to_string()]);
    assert!(p.has_tests);
    assert!(!p.has_ci);
}

#[test]
fn excluded_names_never_scanned() {
    let extra = vec!["custom-out".to_string()];
    let es = vec![
        entry("node_modules", true, empty_files()),
        entry(".git", true, empty_files()),
        entry("custom-out", true, empty_files()),
        entry("keep", true, empty_files()),
        entry("file.txt", false, empty_files()),
    ];
    let ps = scan_all_projects(
        &"/ws".to_string(),
        &extra,
        WorkspaceListing::Entries(es),
    )
    .unwrap();
    assert_eq!(ps.len(), 1);
    assert_eq!(ps[0].name, "keep");
}

#[test]
fn exclusion_lists_are_additive() {
    let extra = vec!["custom-out".to_string()];
    assert!(is_excluded(&"node_modules".to_string(), &extra));
    assert!(is_excluded(&"custom-out".to_string(), &extra));
    assert!(!is_excluded(&"keep".to_string(), &extra));
}

#[test]
fn excluded_regardless_of_contents() {
    let json = r#"{"description":"demo"}"#;
    let mut files = empty_files();
    files.package_json = Some(json.to_string());
    let es = vec![entry("node_modules", true, files)];
    let ps = scan_all_projects(
        &"/ws".to_string(),
        &Vec::new(),
        WorkspaceListing::Entries(es),
    )
    .unwrap();
    assert!(ps.is_empty());
}

#[test]
fn malformed_manifest_degrades_to_defaults() {
    let mut files = empty_files();
    files.package_json = Some("{ garbage".to_string());
    let es = vec![entry("broken", true, files)];
    let ps = scan_all_projects(
        &"/ws".to_string(),
        &Vec::new(),
        WorkspaceListing::Entries(es),
    )
    .unwrap();
    assert_eq!(ps.len(), 1);
    let p = &ps[0];
    assert_eq!(p.name, "broken");
    assert!(p.project_type.is_empty());
    assert_eq!(p.description, "no description");
    assert!(p.tech_stack.is_empty());
    assert!(!p.has_tests);
}

#[test]
fn readme_used_when_no_manifest_description() {
    let mut files = empty_files();
    files.readme = Some("# Demo Tool\nA tool that does demo things.\n".to_string());
    let p = scan_one(files);
    assert_eq!(p.description, "Demo Tool A tool that does demo things.");
}

#[test]
fn manifest_description_beats_readme() {
    let mut files = empty_files();
    files.package_json = Some(r#"{"description":"from manifest"}"#.to_string());
    files.readme = Some("# Readme Title\nA body line long enough.\n".to_string());
    let p = scan_one(files);
    assert_eq!(p.description, "from manifest");
    assert_eq!(p.project_type, vec!["nodejs".to_string()]);
}

#[test]
fn poetry_description_overrides_node() {
    let mut files = empty_files();
    files.package_json = Some(r#"{"description":"node desc"}"#.to_string());
    files.pyproject_toml =
        Some("[tool.poetry]\ndescription = \"poetry desc\"\n".to_string());
    let p = scan_one(files);
    assert_eq!(p.description, "poetry desc");
    assert_eq!(
        p.project_type,
        vec!["nodejs".to_string(), "python-poetry".to_string()]
    );
}

#[test]
fn all_three_formats_combine() {
    let mut files = empty_files();
    files.package_json = Some(r#"{"dependencies":{"react":"1"}}"#.to_string());
    files.pyproject_toml =
        Some("[tool.poetry.dependencies]\npython = \"3\"\nrequests = \"1\"\n".to_string());
    files.requirements_txt = Some("flask==1\n".to_string());
    let p = scan_one(files);
    assert_eq!(
        p.project_type,
        vec![
            "nodejs".to_string(),
            "python-poetry".to_string(),
            "python-pip".to_string()
        ]
    );
    assert_eq!(
        p.tech_stack,
        vec!["react".to_string(), "requests".to_string(), "flask".to_string()]
    );
}

#[test]
fn ci_flags_detected() {
    let mut files = empty_files();
    files.has_gitlab_ci = true;
    let p = scan_one(files);
    assert!(p.has_ci);
    let p = scan_one(empty_files());
    assert!(!p.has_ci);
}

#[test]
fn test_directory_counts_without_script() {
    let mut files = empty_files();
    files.has_test_dir = true;
    let p = scan_one(files);
    assert!(p.has_tests);
}

#[test]
fn git_remote_carried_into_project() {
    let mut files = empty_files();
    files.git_config = Some("[remote \"origin\"]\n\turl = git@example.com:a/b.git\n".to_string());
    let p = scan_one(files);
    assert_eq!(p.git_remote, Some("git@example.com:a/b.git".to_string()));
}

#[test]
fn commit_time_carried_into_project() {
    let mut files = empty_files();
    files.git_head_log =
        Some("0 1 Me <me@example.com> 1700000000 +0000\tcommit: x\n".to_string());
    let p = scan_one(files);
    assert_eq!(p.last_modified, "2023-11-14T22:13:20+00:00");
}

#[test]
fn order_follows_enumeration() {
    let es = vec![
        entry("b", true, empty_files()),
        entry("a", true, empty_files()),
    ];
    let ps = scan_all_projects(
        &"/ws".to_string(),
        &Vec::new(),
        WorkspaceListing::Entries(es),
    )
    .unwrap();
    assert_eq!(ps[0].name, "b");
    assert_eq!(ps[1].name, "a");
}
