use vstd::prelude::*;
use vstd::string::*;
use crate::dirs_ext::home_dir_string;
use crate::text::views_of;
use crate::{path_join, path_join_spec};

verus! {

/// The persisted application settings: the workspace root to scan, the
/// launch commands, and the caller-supplied exclusion list.
pub struct AppSettings {
    pub scan_path: String,
    pub terminal_app: String,
    pub editor_command: String,
    pub excluded_folders: Vec<String>,
}

/// The exclusion list the default settings carry.
pub open spec fn default_excluded_folders() -> Seq<Seq<char>> {
    seq![
        "node_modules"@,
        ".git"@,
        ".cache"@,
        "target"@,
        "dist"@,
        "build"@,
        ".next"@,
        ".nuxt"@,
        "venv"@,
        "__pycache__"@,
        ".venv"@,
    ]
}

/// The default scan path for a given home directory: a `code_workshop`
/// folder under it, or under the filesystem root when none is known.
pub open spec fn default_scan_path(home: Option<Seq<char>>) -> Seq<char> {
    path_join_spec(
        match home {
            Some(h) => h,
            None => "/"@,
        },
        "code_workshop"@,
    )
}

/// Builds the default settings for a given home directory.
pub fn default_settings(home: Option<String>) -> (r: AppSettings)
    ensures
        r.scan_path@ == default_scan_path(
            match home {
                Some(h) => Some(h@),
                None => None,
            },
        ),
        r.terminal_app@ == "Warp"@,
        r.editor_command@ == "code"@,
        views_of(r.excluded_folders@) == default_excluded_folders(),
{
    let base = match home {
        Some(h) => h,
        None => String::from_str("/"),
    };
    let scan_path = path_join(&base, &String::from_str("code_workshop"));
    let mut excluded: Vec<String> = Vec::new();
    excluded.push(String::from_str("node_modules"));
    excluded.push(String::from_str(".git"));
    excluded.push(String::from_str(".cache"));
    excluded.push(String::from_str("target"));
    excluded.push(String::from_str("dist"));
    excluded.push(String::from_str("build"));
    excluded.push(String::from_str(".next"));
    excluded.push(String::from_str(".nuxt"));
    excluded.push(String::from_str("venv"));
    excluded.push(String::from_str("__pycache__"));
    excluded.push(String::from_str(".venv"));
    proof {
        assert(views_of(excluded@) =~= default_excluded_folders());
    }
    AppSettings {
        scan_path,
        terminal_app: String::from_str("Warp"),
        editor_command: String::from_str("code"),
        excluded_folders: excluded,
    }
}

impl Default for AppSettings {
    /// The default settings: the home directory decides only the scan
    /// path; every other field is fixed.
    fn default() -> (r: Self)
        ensures
            exists|h: Option<Seq<char>>| r.scan_path@ == #[trigger] default_scan_path(h),
            r.terminal_app@ == "Warp"@,
            r.editor_command@ == "code"@,
            views_of(r.excluded_folders@) == default_excluded_folders(),
    {
        let home = home_dir_string();
        let ghost gh = match home {
            Some(ref h) => Some(h@),
            None => None::<Seq<char>>,
        };
        let r = default_settings(home);
        proof {
            assert(r.scan_path@ == default_scan_path(gh));
        }
        r
    }
}

} // verus!
