pub mod dirs_ext;
pub mod json_ext;
pub mod manifests;
pub mod rand_ext;
pub mod readme;
pub mod scanner;
pub mod settings;
pub mod tags;
pub mod toml_ext;
pub mod text;
pub mod time_ext;
pub mod vcs;

use vstd::prelude::*;
use vstd::string::*;

verus! {

/// Joins a base path and a child name with a `/` separator, as the
/// platform path join does for absolute bases on Unix.
pub fn path_join(base: &String, name: &String) -> (r: String)
    ensures
        r@ == path_join_spec(base@, name@),
{
    let mut out = base.clone();
    if base.unicode_len() == 0 || base.as_str().get_char(base.unicode_len() - 1) != '/' {
        out.append("/");
    }
    out.append(name.as_str());
    proof {
        reveal_strlit("/");
    }
    out
}

/// What `path_join` returns: the base, one separator if one is missing,
/// then the name.
pub open spec fn path_join_spec(base: Seq<char>, name: Seq<char>) -> Seq<char> {
    if base.len() == 0 || base[base.len() - 1] != '/' {
        base + "/"@ + name
    } else {
        base + name
    }
}

} // verus!
