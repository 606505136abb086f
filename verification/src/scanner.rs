use vstd::prelude::*;
use vstd::string::*;
use crate::json_ext::json_valid;
use crate::manifests::{
    cap10, detect_node, detect_poetry, node_desc_spec, node_tech_spec, node_test_spec,
    parse_requirements, poetry_desc_spec, poetry_tech_spec, req_from,
};
use crate::path_join;
use crate::path_join_spec;
use crate::readme::{extract_description, no_description, summary_of};
use crate::text::{contains_str, opt_view, str_eq, vec_contains_str, views_of};
use crate::toml_ext::toml_valid;
use crate::vcs::{
    extract_git_remote, get_last_modified_date, last_modified_ok, opt_ref_view, remote_from,
};

verus! {

/// One project record, fully derived from filesystem state at scan
/// time.
#[derive(Debug)]
pub struct Project {
    pub name: String,
    pub path: String,
    pub project_type: Vec<String>,
    pub description: String,
    pub tech_stack: Vec<String>,
    pub last_modified: String,
    pub git_remote: Option<String>,
    pub has_tests: bool,
    pub has_ci: bool,
}

/// What was read from one candidate project directory: each file's
/// content when it exists and could be read, and the plain existence
/// facts the probes need.
pub struct ProjectFiles {
    pub package_json: Option<String>,
    pub pyproject_toml: Option<String>,
    pub requirements_txt: Option<String>,
    pub readme: Option<String>,
    pub git_config: Option<String>,
    pub git_head_log: Option<String>,
    pub dir_mtime: Option<i64>,
    pub has_github_workflows: bool,
    pub has_gitlab_ci: bool,
    pub has_travis_ci: bool,
    pub has_test_dir: bool,
}

/// One direct child of the workspace root.
pub struct WorkspaceEntry {
    pub name: String,
    pub is_dir: bool,
    pub files: ProjectFiles,
}

/// What enumerating the workspace root yielded.
pub enum WorkspaceListing {
    Missing,
    Unreadable(String),
    Entries(Vec<WorkspaceEntry>),
}

/// Why a whole scan failed.
#[derive(Debug, PartialEq)]
pub enum ScanError {
    WorkspaceNotFound,
    Unreadable(String),
}

impl ScanError {
    /// A human-readable description of the failure.
    pub fn message(&self) -> (r: String)
        ensures
            self is WorkspaceNotFound ==> r@ == "workspace path does not exist"@,
            self matches ScanError::Unreadable(m) ==> r@ == "cannot read workspace directory: "@
                + m@,
    {
        match self {
            ScanError::WorkspaceNotFound => String::from_str("workspace path does not exist"),
            ScanError::Unreadable(m) => {
                let mut s = String::from_str("cannot read workspace directory: ");
                s.append(m.as_str());
                s
            },
        }
    }
}

/// The built-in names never scanned as projects: filesystem noise,
/// dependency and cache directories, and this product's own folders.
pub open spec fn builtin_excluded_spec() -> Seq<Seq<char>> {
    seq![
        "."@,
        ".."@,
        ".DS_Store"@,
        "__pycache__"@,
        "node_modules"@,
        ".git"@,
        ".venv"@,
        "venv"@,
        "_project-dashboard"@,
        "code-tare-native"@,
    ]
}

/// Builds the built-in exclusion list.
pub fn builtin_excluded() -> (r: Vec<String>)
    ensures
        views_of(r@) == builtin_excluded_spec(),
{
    let mut v: Vec<String> = Vec::new();
    v.push(String::from_str("."));
    v.push(String::from_str(".."));
    v.push(String::from_str(".DS_Store"));
    v.push(String::from_str("__pycache__"));
    v.push(String::from_str("node_modules"));
    v.push(String::from_str(".git"));
    v.push(String::from_str(".venv"));
    v.push(String::from_str("venv"));
    v.push(String::from_str("_project-dashboard"));
    v.push(String::from_str("code-tare-native"));
    proof {
        assert(views_of(v@) =~= builtin_excluded_spec());
    }
    v
}

/// Whether a directory name is excluded from scanning, by the built-in
/// list or by the caller-supplied one; both apply.
pub open spec fn name_excluded(name: Seq<char>, extra: Seq<String>) -> bool {
    builtin_excluded_spec().contains(name) || contains_str(extra, name)
}

/// Decides whether a directory name is excluded from scanning.
pub fn is_excluded(name: &String, extra: &Vec<String>) -> (r: bool)
    ensures
        r == name_excluded(name@, extra@),
{
    let b = builtin_excluded();
    let in_builtin = vec_contains_str(&b, name.as_str());
    proof {
        assert(in_builtin == builtin_excluded_spec().contains(name@)) by {
            if in_builtin {
                let i = choose|i: int| 0 <= i < b@.len() && b@[i]@ == name@;
                assert(views_of(b@)[i] == name@);
            }
            if builtin_excluded_spec().contains(name@) {
                let i = choose|i: int|
                    0 <= i < builtin_excluded_spec().len() && builtin_excluded_spec()[i] == name@;
                assert(b@[i]@ == name@);
            }
        }
    }
    in_builtin || vec_contains_str(extra, name.as_str())
}

/// Whether the Node format is detected for these files: the manifest
/// exists and parses as JSON.
pub open spec fn node_detected(f: ProjectFiles) -> bool {
    match f.package_json {
        Some(c) => json_valid(c@),
        None => false,
    }
}

/// Whether the Poetry format is detected: the manifest exists and
/// parses as TOML.
pub open spec fn poetry_detected(f: ProjectFiles) -> bool {
    match f.pyproject_toml {
        Some(c) => toml_valid(c@),
        None => false,
    }
}

/// The description the Node manifest contributes, when detected.
pub open spec fn node_desc_of(f: ProjectFiles) -> Option<Seq<char>> {
    match f.package_json {
        Some(c) => if json_valid(c@) {
            node_desc_spec(c@)
        } else {
            None
        },
        None => None,
    }
}

/// The tech stack the Node manifest contributes, when detected.
pub open spec fn node_tech_of(f: ProjectFiles) -> Seq<Seq<char>> {
    match f.package_json {
        Some(c) => if json_valid(c@) {
            node_tech_spec(c@)
        } else {
            Seq::empty()
        },
        None => Seq::empty(),
    }
}

/// Whether a detected Node manifest declares a test script.
pub open spec fn node_test_of(f: ProjectFiles) -> bool {
    match f.package_json {
        Some(c) => json_valid(c@) && node_test_spec(c@),
        None => false,
    }
}

/// The description the Poetry manifest contributes, when detected.
pub open spec fn poetry_desc_of(f: ProjectFiles) -> Option<Seq<char>> {
    match f.pyproject_toml {
        Some(c) => if toml_valid(c@) {
            poetry_desc_spec(c@)
        } else {
            None
        },
        None => None,
    }
}

/// The tech stack the Poetry manifest contributes, when detected.
pub open spec fn poetry_tech_of(f: ProjectFiles) -> Seq<Seq<char>> {
    match f.pyproject_toml {
        Some(c) => if toml_valid(c@) {
            poetry_tech_spec(c@)
        } else {
            Seq::empty()
        },
        None => Seq::empty(),
    }
}

/// The names the requirements listing contributes.
pub open spec fn pip_tech_of(f: ProjectFiles) -> Seq<Seq<char>> {
    match f.requirements_txt {
        Some(c) => cap10(req_from(c@, 0)),
        None => Seq::empty(),
    }
}

/// The type tags a directory earns, in detection order: Node first,
/// then Poetry, then pip.
pub open spec fn type_tags(node: bool, poetry: bool, pip: bool) -> Seq<Seq<char>> {
    (if node {
        seq!["nodejs"@]
    } else {
        Seq::<Seq<char>>::empty()
    }) + (if poetry {
        seq!["python-poetry"@]
    } else {
        Seq::<Seq<char>>::empty()
    }) + (if pip {
        seq!["python-pip"@]
    } else {
        Seq::<Seq<char>>::empty()
    })
}

/// The description the manifests alone yield, the later format taking
/// precedence, with the placeholder when none declares one.
pub open spec fn manifest_desc(f: ProjectFiles) -> Seq<char> {
    let d1 = match node_desc_of(f) {
        Some(s) => s,
        None => no_description(),
    };
    match poetry_desc_of(f) {
        Some(s) => s,
        None => d1,
    }
}

/// The final description: the manifest one, or the readme summary when
/// the manifests yielded only the placeholder and a readme exists.
pub open spec fn desc_of(f: ProjectFiles) -> Seq<char> {
    let m = manifest_desc(f);
    if m == no_description() {
        match f.readme {
            Some(rm) => summary_of(rm@),
            None => m,
        }
    } else {
        m
    }
}

/// How the project's remote field relates to the config file content.
pub open spec fn git_remote_rel(r: Option<String>, cfg: Option<String>) -> bool {
    let sr = match cfg {
        Some(c) => remote_from(c@, 0),
        None => None,
    };
    match r {
        Some(u) => sr == Some(u@),
        None => sr is None,
    }
}

/// How a project record relates to what was read from its directory:
/// each field is the one its detector derives from the file contents.
pub open spec fn project_post(p: Project, name: Seq<char>, path: Seq<char>, f: ProjectFiles) -> bool {
    &&& p.name@ == name
    &&& p.path@ == path
    &&& views_of(p.project_type@) == type_tags(
        node_detected(f),
        poetry_detected(f),
        f.requirements_txt is Some,
    )
    &&& views_of(p.tech_stack@) == node_tech_of(f) + poetry_tech_of(f) + pip_tech_of(f)
    &&& p.description@ == desc_of(f)
    &&& p.has_tests == (node_test_of(f) || f.has_test_dir)
    &&& p.has_ci == (f.has_github_workflows || f.has_gitlab_ci || f.has_travis_ci)
    &&& git_remote_rel(p.git_remote, f.git_config)
    &&& last_modified_ok(opt_view(f.git_head_log), f.dir_mtime, p.last_modified@)
}

/// Derives one project record from what was read from one directory.
/// A malformed manifest means that format is not detected, never an
/// error.
pub fn scan_project(name: String, path: String, files: &ProjectFiles) -> (p: Project)
    ensures
        project_post(p, name@, path@, *files),
{
    let mut project_type: Vec<String> = Vec::new();
    let mut description: String = String::from_str("no description");
    let mut tech_stack: Vec<String> = Vec::new();
    let mut has_test_script = false;

    if let Some(c) = &files.package_json {
        match detect_node(c.as_str()) {
            Some(d) => {
                project_type.push(String::from_str("nodejs"));
                tech_stack = d.tech_stack;
                match d.description {
                    Some(ds) => {
                        description = ds;
                    },
                    None => {},
                }
                has_test_script = d.has_test_script;
            },
            None => {},
        }
    }
    proof {
        assert(views_of(tech_stack@) =~= node_tech_of(*files));
        assert(has_test_script == node_test_of(*files));
        assert(description@ == match node_desc_of(*files) {
            Some(s) => s,
            None => no_description(),
        });
    }
    let ghost node_tech = views_of(tech_stack@);

    if let Some(c) = &files.pyproject_toml {
        match detect_poetry(c.as_str()) {
            Some(d) => {
                project_type.push(String::from_str("python-poetry"));
                let mut pt = d.tech_stack;
                tech_stack.append(&mut pt);
                match d.description {
                    Some(ds) => {
                        description = ds;
                    },
                    None => {},
                }
            },
            None => {},
        }
    }
    proof {
        assert(views_of(tech_stack@) =~= node_tech + poetry_tech_of(*files));
        assert(description@ == manifest_desc(*files));
    }
    let ghost manifest_tech = views_of(tech_stack@);

    if let Some(c) = &files.requirements_txt {
        let mut names = parse_requirements(c.as_str());
        project_type.push(String::from_str("python-pip"));
        tech_stack.append(&mut names);
    }
    proof {
        assert(views_of(tech_stack@) =~= manifest_tech + pip_tech_of(*files));
        assert(views_of(tech_stack@) =~= node_tech_of(*files) + poetry_tech_of(*files)
            + pip_tech_of(*files));
        assert(views_of(project_type@) =~= type_tags(
            node_detected(*files),
            poetry_detected(*files),
            files.requirements_txt is Some,
        ));
    }

    if files.readme.is_some() && str_eq(description.as_str(), "no description") {
        description = extract_description(files.readme.as_ref());
    }
    proof {
        assert(description@ == desc_of(*files));
    }

    let git_cfg_ref = files.git_config.as_ref();
    let git_remote = extract_git_remote(git_cfg_ref);
    proof {
        assert(git_remote_rel(git_remote, files.git_config));
    }
    let git_log_ref = files.git_head_log.as_ref();
    proof {
        assert(opt_ref_view(git_log_ref) == opt_view(files.git_head_log));
    }
    let last_modified = get_last_modified_date(git_log_ref, files.dir_mtime);
    let has_ci = files.has_github_workflows || files.has_gitlab_ci || files.has_travis_ci;
    let has_tests = has_test_script || files.has_test_dir;

    let p = Project {
        name,
        path,
        project_type,
        description,
        tech_stack,
        last_modified,
        git_remote,
        has_tests,
        has_ci,
    };
    proof {
        assert(last_modified_ok(opt_view(files.git_head_log), files.dir_mtime, p.last_modified@));
        assert(project_post(p, p.name@, p.path@, *files));
    }
    p
}

/// Whether a workspace entry is scanned: a directory whose name is in
/// neither exclusion list.
pub open spec fn entry_kept(e: WorkspaceEntry, extra: Seq<String>) -> bool {
    e.is_dir && !name_excluded(e.name@, extra)
}

/// The entries of a listing that are scanned, in enumeration order.
pub open spec fn kept_entries(es: Seq<WorkspaceEntry>, extra: Seq<String>) -> Seq<WorkspaceEntry>
    decreases es.len(),
{
    if es.len() == 0 {
        Seq::empty()
    } else {
        let rest = kept_entries(es.drop_last(), extra);
        if entry_kept(es.last(), extra) {
            rest.push(es.last())
        } else {
            rest
        }
    }
}

pub proof fn lemma_kept_entries_prop(es: Seq<WorkspaceEntry>, extra: Seq<String>)
    ensures
        forall|k: int| 0 <= k < kept_entries(es, extra).len() ==> entry_kept(
            #[trigger] kept_entries(es, extra)[k],
            extra,
        ),
    decreases es.len(),
{
    if es.len() > 0 {
        lemma_kept_entries_prop(es.drop_last(), extra);
        let rest = kept_entries(es.drop_last(), extra);
        if entry_kept(es.last(), extra) {
            assert forall|k: int|
                0 <= k < kept_entries(es, extra).len() implies entry_kept(
                #[trigger] kept_entries(es, extra)[k],
                extra,
            ) by {
                assert(kept_entries(es, extra) == rest.push(es.last()));
                if k < rest.len() {
                    assert(kept_entries(es, extra)[k] == rest[k]);
                } else {
                    assert(kept_entries(es, extra)[k] == es.last());
                }
            }
        }
    }
}

/// What a successful scan of listed entries yields: one project per
/// kept entry, in enumeration order, each explained by its entry.
pub open spec fn scan_ok_post(
    ps: Seq<Project>,
    es: Seq<WorkspaceEntry>,
    root: Seq<char>,
    extra: Seq<String>,
) -> bool {
    let kept = kept_entries(es, extra);
    &&& ps.len() == kept.len()
    &&& forall|k: int| 0 <= k < kept.len() ==> project_post(
        #[trigger] ps[k],
        kept[k].name@,
        path_join_spec(root, kept[k].name@),
        kept[k].files,
    )
}

/// Scans a workspace: a missing root fails with `WorkspaceNotFound`, an
/// unlistable root with `Unreadable`, and listed entries always yield
/// exactly one project per kept directory, excluded names never among
/// them.
pub fn scan_all_projects(
    root: &String,
    extra_excluded: &Vec<String>,
    listing: WorkspaceListing,
) -> (r: Result<Vec<Project>, ScanError>)
    ensures
        listing is Missing <==> r == Err::<Vec<Project>, ScanError>(ScanError::WorkspaceNotFound),
        (listing matches WorkspaceListing::Unreadable(m) ==> r == Err::<Vec<Project>, ScanError>(
            ScanError::Unreadable(m),
        )),
        (listing matches WorkspaceListing::Entries(es) ==> r matches Ok(ps) && scan_ok_post(
            ps@,
            es@,
            root@,
            extra_excluded@,
        ) && forall|k: int| 0 <= k < ps@.len() ==> !name_excluded(
            (#[trigger] ps@[k]).name@,
            extra_excluded@,
        )),
{
    match listing {
        WorkspaceListing::Missing => Err(ScanError::WorkspaceNotFound),
        WorkspaceListing::Unreadable(m) => Err(ScanError::Unreadable(m)),
        WorkspaceListing::Entries(es) => {
            let n = es.len();
            let mut ps: Vec<Project> = Vec::new();
            let mut i: usize = 0;
            #[verifier::loop_isolation(false)]
            while i < n
                invariant
                    i <= n,
                    n == es@.len(),
                    scan_ok_post(ps@, es@.take(i as int), root@, extra_excluded@),
                decreases n - i,
            {
                proof {
                    assert(es@.take(i + 1).drop_last() =~= es@.take(i as int));
                    assert(es@.take(i + 1).last() == es@[i as int]);
                }
                let e = &es[i];
                if e.is_dir && !is_excluded(&e.name, extra_excluded) {
                    let name = e.name.clone();
                    let path = path_join(root, &e.name);
                    let p = scan_project(name, path, &e.files);
                    ps.push(p);
                }
                i = i + 1;
            }
            proof {
                assert(es@.take(n as int) =~= es@);
                lemma_kept_entries_prop(es@, extra_excluded@);
                assert forall|k: int| 0 <= k < ps@.len() implies !name_excluded(
                    (#[trigger] ps@[k]).name@,
                    extra_excluded@,
                ) by {
                    let kept = kept_entries(es@, extra_excluded@);
                    assert(project_post(
                        ps@[k],
                        kept[k].name@,
                        path_join_spec(root@, kept[k].name@),
                        kept[k].files,
                    ));
                    assert(entry_kept(kept[k], extra_excluded@));
                }
            }
            Ok(ps)
        },
    }
}

} // verus!
