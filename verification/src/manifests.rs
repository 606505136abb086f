use vstd::prelude::*;
use vstd::string::*;
use crate::json_ext::{json_is_valid, json_obj_keys, json_str_field, json_string_field, json_object_field_keys, json_valid};
use crate::readme::{content_end, line_end};
use crate::text::{contains_str, find_char_from, lemma_contains_views, opt_view, seq_contains, str_eq, trim_hi, trim_lo, trim_range, vec_contains_str, views_of};
use crate::toml_ext::{toml_is_valid, toml_str_at, toml_string_at, toml_table_keys, toml_table_keys_at, toml_valid};

verus! {

/// A sequence capped at its first ten elements.
pub open spec fn cap10<T>(s: Seq<T>) -> Seq<T> {
    if s.len() > 10 {
        s.take(10)
    } else {
        s
    }
}

/// A key list that was not found, read as empty.
pub open spec fn or_empty(o: Option<Seq<Seq<char>>>) -> Seq<Seq<char>> {
    match o {
        Some(v) => v,
        None => Seq::empty(),
    }
}

/// A string option with an empty string counted as absent.
pub open spec fn nonempty_opt(d: Option<String>) -> Option<String> {
    match d {
        Some(s) => if s@.len() > 0 {
            Some(s)
        } else {
            None
        },
        None => None,
    }
}

/// A string view option with an empty view counted as absent.
pub open spec fn nonempty_view(d: Option<Seq<char>>) -> Option<Seq<char>> {
    match d {
        Some(s) => if s.len() > 0 {
            Some(s)
        } else {
            None
        },
        None => None,
    }
}

/// What a Node package manifest contributes to a project record.
pub struct NodeDetection {
    pub description: Option<String>,
    pub tech_stack: Vec<String>,
    pub has_test_script: bool,
}

/// What a Poetry project manifest contributes to a project record.
pub struct PoetryDetection {
    pub description: Option<String>,
    pub tech_stack: Vec<String>,
}

/// Whether a Node detection is well formed: at most ten stack entries
/// and no empty description.
pub open spec fn node_detection_wf(d: NodeDetection) -> bool {
    &&& d.tech_stack@.len() <= 10
    &&& (d.description matches Some(s) ==> s@.len() > 0)
}

/// Whether a Poetry detection is well formed: at most ten stack
/// entries, none of them the literal `python`.
pub open spec fn poetry_detection_wf(d: PoetryDetection) -> bool {
    &&& d.tech_stack@.len() <= 10
    &&& forall|k: int| 0 <= k < d.tech_stack@.len() ==> (#[trigger] d.tech_stack@[k])@
        != "python"@
}

/// The description a Node manifest text declares: its non-empty
/// `description` string field.
pub open spec fn node_desc_spec(s: Seq<char>) -> Option<Seq<char>> {
    nonempty_view(json_str_field(s, "description"@))
}

/// The tech stack a Node manifest text declares: the runtime
/// dependency keys, then the development ones, capped at ten.
pub open spec fn node_tech_spec(s: Seq<char>) -> Seq<Seq<char>> {
    cap10(or_empty(json_obj_keys(s, "dependencies"@)) + or_empty(
        json_obj_keys(s, "devDependencies"@),
    ))
}

/// Whether a Node manifest text declares a test script: a `scripts`
/// key named `test` or `test:unit`.
pub open spec fn node_test_spec(s: Seq<char>) -> bool {
    seq_contains(or_empty(json_obj_keys(s, "scripts"@)), "test"@) || seq_contains(
        or_empty(json_obj_keys(s, "scripts"@)),
        "test:unit"@,
    )
}

/// Merges the parts read from a Node package manifest: the tech stack
/// is the runtime keys then the development keys, capped at ten; a test
/// script is a `scripts` key named `test` or `test:unit`; an empty
/// description counts as absent.
pub fn combine_node_parts(
    description: Option<String>,
    deps: Vec<String>,
    dev_deps: Vec<String>,
    script_keys: Vec<String>,
) -> (r: NodeDetection)
    ensures
        r.tech_stack@ == cap10(deps@ + dev_deps@),
        r.has_test_script == (contains_str(script_keys@, "test"@) || contains_str(
            script_keys@,
            "test:unit"@,
        )),
        r.description == nonempty_opt(description),
        node_detection_wf(r),
{
    let has = vec_contains_str(&script_keys, "test") || vec_contains_str(&script_keys, "test:unit");
    let mut tech = deps;
    let mut dd = dev_deps;
    tech.append(&mut dd);
    if tech.len() > 10 {
        tech.truncate(10);
    }
    let desc = match description {
        Some(d) => {
            if d.as_str().unicode_len() > 0 {
                Some(d)
            } else {
                None
            }
        },
        None => None,
    };
    NodeDetection { description: desc, tech_stack: tech, has_test_script: has }
}

/// Reads a Node package manifest text: the format is detected exactly
/// when the text parses as JSON, and the record's parts are then the
/// manifest's description, dependency keys and script keys.
pub fn detect_node(content: &str) -> (r: Option<NodeDetection>)
    ensures
        r is Some <==> json_valid(content@),
        r matches Some(d) ==> {
            &&& opt_view(d.description) == node_desc_spec(content@)
            &&& views_of(d.tech_stack@) == node_tech_spec(content@)
            &&& d.has_test_script == node_test_spec(content@)
            &&& node_detection_wf(d)
        },
{
    if !json_is_valid(content) {
        return None;
    }
    let desc = json_string_field(content, "description");
    let deps = match json_object_field_keys(content, "dependencies") {
        Some(v) => v,
        None => Vec::new(),
    };
    let dev_deps = match json_object_field_keys(content, "devDependencies") {
        Some(v) => v,
        None => Vec::new(),
    };
    let script_keys = match json_object_field_keys(content, "scripts") {
        Some(v) => v,
        None => Vec::new(),
    };
    let ghost gdesc = desc;
    let ghost gdeps = deps@;
    let ghost gdev = dev_deps@;
    let ghost gscripts = script_keys@;
    let d = combine_node_parts(desc, deps, dev_deps, script_keys);
    proof {
        assert(views_of(gdeps) =~= or_empty(json_obj_keys(content@, "dependencies"@)));
        assert(views_of(gdev) =~= or_empty(json_obj_keys(content@, "devDependencies"@)));
        assert(views_of(gscripts) =~= or_empty(json_obj_keys(content@, "scripts"@)));
        assert(views_of(gdeps + gdev) =~= views_of(gdeps) + views_of(gdev));
        assert(views_of(cap10(gdeps + gdev)) =~= cap10(views_of(gdeps + gdev)));
        assert(opt_view(nonempty_opt(gdesc)) == nonempty_view(opt_view(gdesc)));
        lemma_contains_views(gscripts, "test"@);
        lemma_contains_views(gscripts, "test:unit"@);
    }
    Some(d)
}

/// The dependency keys with the literal `python` left out, in order.
pub open spec fn non_python(keys: Seq<String>) -> Seq<String>
    decreases keys.len(),
{
    if keys.len() == 0 {
        Seq::empty()
    } else {
        let rest = non_python(keys.drop_last());
        if keys.last()@ == "python"@ {
            rest
        } else {
            rest.push(keys.last())
        }
    }
}

/// The key views with the literal `python` left out, in order.
pub open spec fn non_python_v(keys: Seq<Seq<char>>) -> Seq<Seq<char>>
    decreases keys.len(),
{
    if keys.len() == 0 {
        Seq::empty()
    } else {
        let rest = non_python_v(keys.drop_last());
        if keys.last() == "python"@ {
            rest
        } else {
            rest.push(keys.last())
        }
    }
}

proof fn lemma_non_python_views(keys: Seq<String>)
    ensures
        views_of(non_python(keys)) =~= non_python_v(views_of(keys)),
    decreases keys.len(),
{
    if keys.len() > 0 {
        lemma_non_python_views(keys.drop_last());
        assert(views_of(keys.drop_last()) =~= views_of(keys).drop_last());
        assert(views_of(keys).last() == keys.last()@);
        if keys.last()@ != "python"@ {
            assert(views_of(non_python(keys.drop_last()).push(keys.last())) =~= views_of(
                non_python(keys.drop_last()),
            ).push(keys.last()@));
        }
    }
}

/// The description a Poetry manifest text declares, under
/// `tool.poetry.description`.
pub open spec fn poetry_desc_spec(s: Seq<char>) -> Option<Seq<char>> {
    toml_str_at(s, "tool"@, "poetry"@, "description"@)
}

/// The tech stack a Poetry manifest text declares: the keys of
/// `tool.poetry.dependencies` without the interpreter entry `python`,
/// capped at ten.
pub open spec fn poetry_tech_spec(s: Seq<char>) -> Seq<Seq<char>> {
    cap10(non_python_v(or_empty(toml_table_keys_at(s, "tool"@, "poetry"@, "dependencies"@))))
}

/// Merges the parts read from a Poetry manifest: the dependency keys
/// without the interpreter entry `python`, capped at ten.
pub fn combine_poetry_parts(description: Option<String>, dep_keys: Vec<String>) -> (r:
    PoetryDetection)
    ensures
        r.tech_stack@ == cap10(non_python(dep_keys@)),
        r.description == description,
        r.tech_stack@.len() <= 10,
{
    let n = dep_keys.len();
    let mut out: Vec<String> = Vec::new();
    let mut i: usize = 0;
    #[verifier::loop_isolation(false)]
    while i < n
        invariant
            i <= n,
            n == dep_keys@.len(),
            out@ == non_python(dep_keys@.take(i as int)),
        decreases n - i,
    {
        proof {
            assert(dep_keys@.take(i + 1).drop_last() =~= dep_keys@.take(i as int));
            assert(dep_keys@.take(i + 1).last() == dep_keys@[i as int]);
        }
        if !str_eq(dep_keys[i].as_str(), "python") {
            out.push(dep_keys[i].clone());
        }
        i = i + 1;
    }
    proof {
        assert(dep_keys@.take(n as int) =~= dep_keys@);
    }
    if out.len() > 10 {
        out.truncate(10);
    }
    PoetryDetection { description, tech_stack: out }
}

proof fn lemma_non_python_no_python(keys: Seq<String>)
    ensures
        forall|k: int| 0 <= k < non_python(keys).len() ==> (#[trigger] non_python(keys)[k])@
            != "python"@,
    decreases keys.len(),
{
    if keys.len() > 0 {
        lemma_non_python_no_python(keys.drop_last());
        let rest = non_python(keys.drop_last());
        if keys.last()@ != "python"@ {
            assert forall|k: int|
                0 <= k < non_python(keys).len() implies (#[trigger] non_python(keys)[k])@
                != "python"@ by {
                assert(non_python(keys) == rest.push(keys.last()));
                if k < rest.len() {
                    assert(non_python(keys)[k] == rest[k]);
                } else {
                    assert(non_python(keys)[k] == keys.last());
                }
            }
        }
    }
}

/// Reads a Poetry project manifest text: the format is detected
/// exactly when the text parses as TOML, and the record's parts are
/// then the manifest's nested description and dependency keys.
pub fn detect_poetry(content: &str) -> (r: Option<PoetryDetection>)
    ensures
        r is Some <==> toml_valid(content@),
        r matches Some(d) ==> {
            &&& opt_view(d.description) == poetry_desc_spec(content@)
            &&& views_of(d.tech_stack@) == poetry_tech_spec(content@)
            &&& poetry_detection_wf(d)
        },
{
    if !toml_is_valid(content) {
        return None;
    }
    let desc = toml_string_at(content, "tool", "poetry", "description");
    let dep_keys = match toml_table_keys(content, "tool", "poetry", "dependencies") {
        Some(v) => v,
        None => Vec::new(),
    };
    let ghost gkeys = dep_keys@;
    let r = combine_poetry_parts(desc, dep_keys);
    proof {
        assert(views_of(gkeys) =~= or_empty(
            toml_table_keys_at(content@, "tool"@, "poetry"@, "dependencies"@),
        ));
        lemma_non_python_views(gkeys);
        assert(views_of(cap10(non_python(gkeys))) =~= cap10(non_python_v(views_of(gkeys))));
        lemma_non_python_no_python(gkeys);
        assert(forall|k: int| 0 <= k < r.tech_stack@.len() ==> r.tech_stack@[k] == cap10(
            non_python(gkeys),
        )[k]);
    }
    Some(r)
}

/// First index in `[lo, hi)` holding `=`, `<` or `>`, or `hi`.
pub open spec fn find_delim(s: Seq<char>, lo: int, hi: int) -> int
    decreases hi - lo,
{
    if lo >= hi {
        hi
    } else if s[lo] == '=' || s[lo] == '<' || s[lo] == '>' {
        lo
    } else {
        find_delim(s, lo + 1, hi)
    }
}

fn find_delim_from(s: &str, lo: usize, hi: usize) -> (r: usize)
    requires
        lo <= hi <= s@.len(),
    ensures
        r == find_delim(s@, lo as int, hi as int),
        lo <= r <= hi,
{
    let mut i = lo;
    #[verifier::loop_isolation(false)]
    while i < hi && s.get_char(i) != '=' && s.get_char(i) != '<' && s.get_char(i) != '>'
        invariant
            lo <= i <= hi,
            find_delim(s@, lo as int, hi as int) == find_delim(s@, i as int, hi as int),
        decreases hi - i,
    {
        i = i + 1;
    }
    assert(find_delim(s@, i as int, hi as int) == i as int);
    i
}

/// The package names a requirements listing declares, scanning from
/// `i`: each non-blank line not starting with `#`, trimmed, cut at the
/// first `=`, `<` or `>`.
pub open spec fn req_from(s: Seq<char>, i: int) -> Seq<Seq<char>>
    decreases s.len() + 1 - i,
{
    if i >= s.len() || i < 0 {
        Seq::empty()
    } else {
        let j = line_end(s, i);
        let e = content_end(s, i);
        let next = if i < j + 1 <= s.len() {
            j + 1
        } else {
            s.len() as int
        };
        let ta = trim_lo(s, i, e);
        let tb = trim_hi(s, i, e);
        if ta < tb && s[ta] != '#' {
            seq![s.subrange(ta, find_delim(s, ta, tb))] + req_from(s, next)
        } else {
            req_from(s, next)
        }
    }
}

/// Parses a pip requirements listing: blank lines and `#` comments are
/// skipped, each remaining line yields the text before the first
/// version delimiter, and the result is capped at ten names.
pub fn parse_requirements(content: &str) -> (r: Vec<String>)
    ensures
        views_of(r@) == cap10(req_from(content@, 0)),
        r@.len() <= 10,
{
    let s = content;
    let n = s.unicode_len();
    let mut out: Vec<String> = Vec::new();
    let mut i: usize = 0;
    assert(views_of(out@) =~= Seq::<Seq<char>>::empty());
    #[verifier::loop_isolation(false)]
    while i < n
        invariant
            i <= n,
            n == s@.len(),
            req_from(s@, 0) =~= views_of(out@) + req_from(s@, i as int),
        decreases n - i,
    {
        let j = find_char_from(s, i, n, '\n');
        let e = if j > i && s.get_char(j - 1) == '\r' {
            j - 1
        } else {
            j
        };
        assert(e == content_end(s@, i as int));
        let next = if j < n {
            j + 1
        } else {
            n
        };
        let (ta, tb) = trim_range(s, i, e);
        if ta < tb && s.get_char(ta) != '#' {
            let de = find_delim_from(s, ta, tb);
            let name = s.substring_char(ta, de).to_owned();
            let ghost old_out = out@;
            out.push(name);
            proof {
                assert(views_of(out@) =~= views_of(old_out).push(s@.subrange(
                    ta as int,
                    de as int,
                )));
                assert(views_of(old_out).push(s@.subrange(ta as int, de as int)) + req_from(
                    s@,
                    next as int,
                ) =~= views_of(old_out) + (seq![s@.subrange(ta as int, de as int)] + req_from(
                    s@,
                    next as int,
                )));
            }
        }
        i = next;
    }
    assert(req_from(s@, i as int) =~= Seq::<Seq<char>>::empty());
    assert(req_from(s@, 0) =~= views_of(out@));
    if out.len() > 10 {
        out.truncate(10);
        assert(views_of(out@) =~= cap10(req_from(s@, 0)));
    } else {
        assert(views_of(out@) =~= cap10(req_from(s@, 0)));
    }
    out
}

} // verus!
