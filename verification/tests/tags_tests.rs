use project_dashboard::tags::{
    add_category_tag, assign_random_color, default_project_tags, default_tag_definitions,
    delete_category_tag, get_default_tag_colors, get_project_tags, normalize_custom_title,
    set_project_tags, update_tag_color, ProjectTags, TagColors, TagError,
};

const PALETTE: [&str; 15] = [
    "bg-purple-100 text-purple-800",
    "bg-indigo-100 text-indigo-800",
    "bg-blue-100 text-blue-800",
    "bg-cyan-100 text-cyan-800",
    "bg-teal-100 text-teal-800",
    "bg-emerald-100 text-emerald-800",
    "bg-green-100 text-green-800",
    "bg-lime-100 text-lime-800",
    "bg-yellow-100 text-yellow-800",
    "bg-amber-100 text-amber-800",
    "bg-orange-100 text-orange-800",
    "bg-pink-100 text-pink-800",
    "bg-rose-100 text-rose-800",
    "bg-violet-100 text-violet-800",
    "bg-fuchsia-100 text-fuchsia-800",
];

fn tags_with(categories: Vec<String>) -> ProjectTags {
    ProjectTags {
        custom_title: None,
        progress: "in-progress".to_string(),
        categories,
        favorite: false,
        archived: false,
        notes: String::new(),
    }
}

fn empty_colors() -> TagColors {
    TagColors {
        progress: Vec::new(),
        categories: Vec::new(),
    }
}

#[test]
fn defaults_for_unknown_project() {
    let store = Vec::new();
    let t = get_project_tags(&store, &"ghost".to_string());
    assert_eq!(t.custom_title, None);
    assert_eq!(t.progress, "planned");
    assert!(t.categories.is_empty());
    assert!(!t.favorite);
    assert!(!t.archived);
    assert_eq!(t.notes, "");
}

#[test]
fn stored_tags_returned() {
    let mut store = Vec::new();
    let mut t = tags_with(vec!["AI".to_string()]);
    t.favorite = true;
    t.notes = "keep".to_string();
    set_project_tags(&mut store, &"proj".to_string(), t);
    let got = get_project_tags(&store, &"proj".to_string());
    assert_eq!(got.progress, "in-progress");
    assert_eq!(got.categories, vec!["AI".to_string()]);
    assert!(got.favorite);
    assert_eq!(got.notes, "keep");
}

#[test]
fn set_replaces_existing_record() {
    let mut store = Vec::new();
    set_project_tags(&mut store, &"p".to_string(), tags_with(vec![]));
    set_project_tags(&mut store, &"p".to_string(), tags_with(vec!["CLI".to_string()]));
    assert_eq!(store.len(), 1);
    let got = get_project_tags(&store, &"p".to_string());
    assert_eq!(got.categories, vec!["CLI".to_string()]);
}

#[test]
fn title_of_fifty_characters_kept() {
    let title: String = "t".repeat(50);
    let mut t = tags_with(vec![]);
    t.custom_title = Some(title.clone());
    let mut store = Vec::new();
    set_project_tags(&mut store, &"p".to_string(), t);
    let got = get_project_tags(&store, &"p".to_string());
    assert_eq!(got.custom_title, Some(title));
}

#[test]
fn title_of_fifty_one_characters_dropped() {
    let title: String = "t".repeat(51);
    let mut t = tags_with(vec![]);
    t.custom_title = Some(title);
    let mut store = Vec::new();
    set_project_tags(&mut store, &"p".to_string(), t);
    let got = get_project_tags(&store, &"p".to_string());
    assert_eq!(got.custom_title, None);
}

#[test]
fn title_trimmed_before_the_length_check() {
    let padded = format!("   {}   ", "t".repeat(50));
    let mut t = tags_with(vec![]);
    t.custom_title = Some(padded);
    let mut store = Vec::new();
    set_project_tags(&mut store, &"p".to_string(), t);
    let got = get_project_tags(&store, &"p".to_string());
    assert_eq!(got.custom_title, Some("t".repeat(50)));
}

#[test]
fn blank_title_dropped() {
    assert_eq!(normalize_custom_title(Some("   ".to_string())), None);
    assert_eq!(
        normalize_custom_title(Some("  hi  ".to_string())),
        Some("hi".to_string())
    );
    assert_eq!(normalize_custom_title(None), None);
}

#[test]
fn add_existing_category_refused() {
    let defs = default_tag_definitions();
    let colors = get_default_tag_colors();
    let before = defs.categories.len();
    let r = add_category_tag(&defs, &colors, &"AI".to_string());
    assert_eq!(r.unwrap_err(), TagError::AlreadyExists);
    assert_eq!(defs.categories.len(), before);
    assert_eq!(defs.categories.iter().filter(|c| *c == "AI").count(), 1);
}

#[test]
fn add_new_category_appends_once_and_colors_it() {
    let defs = default_tag_definitions();
    let colors = get_default_tag_colors();
    let (nd, nc) = add_category_tag(&defs, &colors, &"newcat".to_string()).unwrap();
    assert_eq!(nd.categories.len(), defs.categories.len() + 1);
    assert_eq!(nd.categories.last().unwrap(), "newcat");
    assert_eq!(
        nd.categories.iter().filter(|c| *c == "newcat").count(),
        1
    );
    let (_, color) = nc
        .categories
        .iter()
        .find(|p| p.0 == "newcat")
        .expect("color assigned");
    assert!(PALETTE.contains(&color.as_str()));
}

#[test]
fn add_keeps_existing_color_entry() {
    let defs = default_tag_definitions();
    let mut colors = empty_colors();
    colors
        .categories
        .push(("newcat".to_string(), "bg-pink-100 text-pink-800".to_string()));
    let (_, nc) = add_category_tag(&defs, &colors, &"newcat".to_string()).unwrap();
    assert_eq!(nc.categories.len(), 1);
    assert_eq!(nc.categories[0].1, "bg-pink-100 text-pink-800");
}

#[test]
fn delete_unknown_category_refused() {
    let defs = default_tag_definitions();
    let colors = get_default_tag_colors();
    let r = delete_category_tag(&defs, &colors, &Vec::new(), &"missing".to_string());
    assert_eq!(r.unwrap_err(), TagError::NotFound);
}

#[test]
fn delete_in_use_category_lists_every_user() {
    let defs = default_tag_definitions();
    let colors = get_default_tag_colors();
    let mut store = Vec::new();
    set_project_tags(&mut store, &"one".to_string(), tags_with(vec!["AI".to_string()]));
    set_project_tags(&mut store, &"two".to_string(), tags_with(vec!["CLI".to_string()]));
    set_project_tags(
        &mut store,
        &"three".to_string(),
        tags_with(vec!["bot".to_string(), "AI".to_string()]),
    );
    let r = delete_category_tag(&defs, &colors, &store, &"AI".to_string());
    match r.unwrap_err() {
        TagError::InUse(names) => {
            assert_eq!(names, vec!["one".to_string(), "three".to_string()]);
        }
        other => panic!("unexpected error: {:?}", other),
    }
}

#[test]
fn delete_unused_category_removes_name_and_color() {
    let defs = default_tag_definitions();
    let colors = get_default_tag_colors();
    let (nd, nc) = delete_category_tag(&defs, &colors, &Vec::new(), &"bot".to_string()).unwrap();
    assert_eq!(nd.categories.len(), defs.categories.len() - 1);
    assert!(!nd.categories.iter().any(|c| c == "bot"));
    assert!(!nc.categories.iter().any(|p| p.0 == "bot"));
    assert_eq!(nd.progress, defs.progress);
}

#[test]
fn update_color_overwrites_or_appends() {
    let colors = get_default_tag_colors();
    let updated = update_tag_color(&colors, &"AI".to_string(), &"bg-lime-100 text-lime-800".to_string());
    assert_eq!(updated.categories.len(), colors.categories.len());
    let (_, c) = updated.categories.iter().find(|p| p.0 == "AI").unwrap();
    assert_eq!(c, "bg-lime-100 text-lime-800");
    let appended = update_tag_color(&colors, &"fresh".to_string(), &"tok".to_string());
    assert_eq!(appended.categories.len(), colors.categories.len() + 1);
    assert_eq!(appended.categories.last().unwrap().0, "fresh");
    assert_eq!(appended.categories.last().unwrap().1, "tok");
}

#[test]
fn default_vocabulary() {
    let defs = default_tag_definitions();
    assert_eq!(
        defs.progress,
        vec![
            "in-progress".to_string(),
            "paused".to_string(),
            "completed".to_string(),
            "planned".to_string(),
            "deprecated".to_string()
        ]
    );
    assert_eq!(defs.categories.len(), 11);
    assert_eq!(defs.categories[0], "AI");
}

#[test]
fn default_colors_cover_vocabulary() {
    let defs = default_tag_definitions();
    let colors = get_default_tag_colors();
    for p in &defs.progress {
        assert!(colors.progress.iter().any(|e| &e.0 == p));
    }
    for c in &defs.categories {
        assert!(colors.categories.iter().any(|e| &e.0 == c));
    }
    assert!(colors.categories.iter().any(|e| e.0 == "default"));
}

#[test]
fn random_color_comes_from_palette() {
    for _ in 0..20 {
        let c = assign_random_color();
        assert!(PALETTE.contains(&c.as_str()));
    }
}

#[test]
fn default_record_shape() {
    let t = default_project_tags();
    assert_eq!(t.progress, "planned");
    assert_eq!(t.custom_title, None);
}
