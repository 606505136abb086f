use project_dashboard::manifests::{
    combine_node_parts, detect_node, detect_poetry, parse_requirements,
};

#[test]
fn node_manifest_parsed() {
    let json = r#"{"description":"demo","dependencies":{"react":"1"},"scripts":{"test":"x"}}"#;
    let d = detect_node(json).expect("valid manifest");
    assert_eq!(d.description, Some("demo".to_string()));
    assert_eq!(d.tech_stack, vec!["react".to_string()]);
    assert!(d.has_test_script);
}

#[test]
fn node_invalid_json_not_detected() {
    assert!(detect_node("{ not json").is_none());
}

#[test]
fn node_empty_description_counts_as_absent() {
    let json = r#"{"description":"","dependencies":{}}"#;
    let d = detect_node(json).expect("valid manifest");
    assert_eq!(d.description, None);
}

#[test]
fn node_test_unit_script_counts() {
    let json = r#"{"scripts":{"test:unit":"x"}}"#;
    let d = detect_node(json).expect("valid manifest");
    assert!(d.has_test_script);
    let json = r#"{"scripts":{"lint":"x"}}"#;
    let d = detect_node(json).expect("valid manifest");
    assert!(!d.has_test_script);
}

#[test]
fn node_stack_runtime_then_dev_capped_at_ten() {
    let json = r#"{"dependencies":{"a":"1","b":"1","c":"1","d":"1","e":"1","f":"1"},
                   "devDependencies":{"g":"1","h":"1","i":"1","j":"1","k":"1","l":"1"}}"#;
    let d = detect_node(json).expect("valid manifest");
    assert_eq!(d.tech_stack.len(), 10);
    assert_eq!(d.tech_stack[0], "a");
    assert_eq!(d.tech_stack[9], "j");
}

#[test]
fn combine_node_parts_exact() {
    let deps = vec!["x".to_string()];
    let dev = vec!["y".to_string()];
    let scripts = vec!["build".to_string(), "test".to_string()];
    let d = combine_node_parts(Some("hello".to_string()), deps, dev, scripts);
    assert_eq!(d.description, Some("hello".to_string()));
    assert_eq!(d.tech_stack, vec!["x".to_string(), "y".to_string()]);
    assert!(d.has_test_script);
}

#[test]
fn poetry_manifest_parsed() {
    let toml_text = "[tool.poetry]\ndescription = \"py demo\"\n\n[tool.poetry.dependencies]\npython = \"^3.9\"\nrequests = \"1\"\n";
    let d = detect_poetry(toml_text).expect("valid manifest");
    assert_eq!(d.description, Some("py demo".to_string()));
    assert_eq!(d.tech_stack, vec!["requests".to_string()]);
}

#[test]
fn poetry_invalid_toml_not_detected() {
    assert!(detect_poetry("= nonsense =").is_none());
}

#[test]
fn poetry_without_tool_section_detected_with_defaults() {
    let d = detect_poetry("[project]\nname = \"x\"\n").expect("valid toml");
    assert_eq!(d.description, None);
    assert!(d.tech_stack.is_empty());
}

#[test]
fn requirements_basic() {
    let text = "flask==1.0\n# comment\n\nnumpy>=2\nscipy<3\n";
    let names = parse_requirements(text);
    assert_eq!(
        names,
        vec!["flask".to_string(), "numpy".to_string(), "scipy".to_string()]
    );
}

#[test]
fn requirements_name_cut_at_first_delimiter() {
    let names = parse_requirements("flask >= 1.0\n");
    assert_eq!(names, vec!["flask ".to_string()]);
}

#[test]
fn requirements_capped_at_ten() {
    let text = "a\nb\nc\nd\ne\nf\ng\nh\ni\nj\nk\nl\n";
    let names = parse_requirements(text);
    assert_eq!(names.len(), 10);
    assert_eq!(names[9], "j");
}

#[test]
fn requirements_empty_text() {
    assert!(parse_requirements("").is_empty());
}
