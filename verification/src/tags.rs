use vstd::prelude::*;
use vstd::string::*;
use crate::rand_ext::random_below;
use crate::text::{contains_str, opt_view, str_eq, trim_range, trim_spec, vec_contains_str, views_of};

verus! {

/// The tags a user attached to one project, keyed by project name.
#[derive(Debug)]
pub struct ProjectTags {
    pub custom_title: Option<String>,
    pub progress: String,
    pub categories: Vec<String>,
    pub favorite: bool,
    pub archived: bool,
    pub notes: String,
}

/// The shared tag vocabulary: the fixed progress values and the
/// mutable category names.
#[derive(Debug)]
pub struct TagDefinitions {
    pub progress: Vec<String>,
    pub categories: Vec<String>,
}

/// Display-style tokens per progress value and per category name, as
/// ordered key/value lists with unique keys.
#[derive(Debug)]
pub struct TagColors {
    pub progress: Vec<(String, String)>,
    pub categories: Vec<(String, String)>,
}

/// Why a tag-vocabulary mutation was refused.
#[derive(Debug, PartialEq)]
pub enum TagError {
    AlreadyExists,
    NotFound,
    InUse(Vec<String>),
}

/// The fixed progress vocabulary, in order. These exact strings are
/// what the store persists and compares; renaming one would strand
/// records written with the old value.
pub open spec fn progress_vocab() -> Seq<Seq<char>> {
    seq!["in-progress"@, "paused"@, "completed"@, "planned"@, "deprecated"@]
}

/// The category names a fresh vocabulary starts with; like the
/// progress values, they are persisted as these exact strings.
pub open spec fn default_categories() -> Seq<Seq<char>> {
    seq![
        "AI"@,
        "webapp"@,
        "CLI"@,
        "bot"@,
        "scraper"@,
        "automation"@,
        "knowledge-base"@,
        "Obsidian"@,
        "agent"@,
        "data-collection"@,
        "document-conversion"@,
    ]
}

/// Builds the tag definitions a fresh data directory starts with.
pub fn default_tag_definitions() -> (r: TagDefinitions)
    ensures
        views_of(r.progress@) == progress_vocab(),
        views_of(r.categories@) == default_categories(),
{
    let mut progress: Vec<String> = Vec::new();
    progress.push(String::from_str("in-progress"));
    progress.push(String::from_str("paused"));
    progress.push(String::from_str("completed"));
    progress.push(String::from_str("planned"));
    progress.push(String::from_str("deprecated"));
    let mut categories: Vec<String> = Vec::new();
    categories.push(String::from_str("AI"));
    categories.push(String::from_str("webapp"));
    categories.push(String::from_str("CLI"));
    categories.push(String::from_str("bot"));
    categories.push(String::from_str("scraper"));
    categories.push(String::from_str("automation"));
    categories.push(String::from_str("knowledge-base"));
    categories.push(String::from_str("Obsidian"));
    categories.push(String::from_str("agent"));
    categories.push(String::from_str("data-collection"));
    categories.push(String::from_str("document-conversion"));
    proof {
        assert(views_of(progress@) =~= progress_vocab());
        assert(views_of(categories@) =~= default_categories());
    }
    TagDefinitions { progress, categories }
}

/// The key/value views of an ordered color list.
pub open spec fn pair_views(v: Seq<(String, String)>) -> Seq<(Seq<char>, Seq<char>)> {
    v.map_values(|p: (String, String)| (p.0@, p.1@))
}

/// The colors a fresh data directory assigns to the progress values.
pub open spec fn default_progress_colors() -> Seq<(Seq<char>, Seq<char>)> {
    seq![
        ("in-progress"@, "bg-green-100 text-green-800 border-green-300"@),
        ("paused"@, "bg-gray-100 text-gray-800 border-gray-300"@),
        ("completed"@, "bg-blue-100 text-blue-800 border-blue-300"@),
        ("planned"@, "bg-orange-100 text-orange-800 border-orange-300"@),
        ("deprecated"@, "bg-red-100 text-red-800 border-red-300"@),
    ]
}

/// The colors a fresh data directory assigns to the default categories,
/// with a fallback entry under `default`.
pub open spec fn default_category_colors() -> Seq<(Seq<char>, Seq<char>)> {
    seq![
        ("AI"@, "bg-purple-100 text-purple-800"@),
        ("webapp"@, "bg-indigo-100 text-indigo-800"@),
        ("CLI"@, "bg-slate-100 text-slate-800"@),
        ("bot"@, "bg-pink-100 text-pink-800"@),
        ("scraper"@, "bg-orange-100 text-orange-800"@),
        ("automation"@, "bg-cyan-100 text-cyan-800"@),
        ("knowledge-base"@, "bg-amber-100 text-amber-800"@),
        ("Obsidian"@, "bg-violet-100 text-violet-800"@),
        ("agent"@, "bg-fuchsia-100 text-fuchsia-800"@),
        ("data-collection"@, "bg-teal-100 text-teal-800"@),
        ("document-conversion"@, "bg-emerald-100 text-emerald-800"@),
        ("default"@, "bg-gray-100 text-gray-600"@),
    ]
}

fn color_pair(k: &str, v: &str) -> (r: (String, String))
    ensures
        r.0@ == k@,
        r.1@ == v@,
{
    (String::from_str(k), String::from_str(v))
}

/// Builds the colors a fresh data directory starts with.
pub fn get_default_tag_colors() -> (r: TagColors)
    ensures
        pair_views(r.progress@) == default_progress_colors(),
        pair_views(r.categories@) == default_category_colors(),
{
    let mut progress: Vec<(String, String)> = Vec::new();
    progress.push(color_pair("in-progress", "bg-green-100 text-green-800 border-green-300"));
    progress.push(color_pair("paused", "bg-gray-100 text-gray-800 border-gray-300"));
    progress.push(color_pair("completed", "bg-blue-100 text-blue-800 border-blue-300"));
    progress.push(color_pair("planned", "bg-orange-100 text-orange-800 border-orange-300"));
    progress.push(color_pair("deprecated", "bg-red-100 text-red-800 border-red-300"));
    let mut categories: Vec<(String, String)> = Vec::new();
    categories.push(color_pair("AI", "bg-purple-100 text-purple-800"));
    categories.push(color_pair("webapp", "bg-indigo-100 text-indigo-800"));
    categories.push(color_pair("CLI", "bg-slate-100 text-slate-800"));
    categories.push(color_pair("bot", "bg-pink-100 text-pink-800"));
    categories.push(color_pair("scraper", "bg-orange-100 text-orange-800"));
    categories.push(color_pair("automation", "bg-cyan-100 text-cyan-800"));
    categories.push(color_pair("knowledge-base", "bg-amber-100 text-amber-800"));
    categories.push(color_pair("Obsidian", "bg-violet-100 text-violet-800"));
    categories.push(color_pair("agent", "bg-fuchsia-100 text-fuchsia-800"));
    categories.push(color_pair("data-collection", "bg-teal-100 text-teal-800"));
    categories.push(color_pair("document-conversion", "bg-emerald-100 text-emerald-800"));
    categories.push(color_pair("default", "bg-gray-100 text-gray-600"));
    proof {
        assert(pair_views(progress@) =~= default_progress_colors());
        assert(pair_views(categories@) =~= default_category_colors());
    }
    TagColors { progress, categories }
}

/// The palette a new category draws its color from.
pub open spec fn palette() -> Seq<Seq<char>> {
    seq![
        "bg-purple-100 text-purple-800"@,
        "bg-indigo-100 text-indigo-800"@,
        "bg-blue-100 text-blue-800"@,
        "bg-cyan-100 text-cyan-800"@,
        "bg-teal-100 text-teal-800"@,
        "bg-emerald-100 text-emerald-800"@,
        "bg-green-100 text-green-800"@,
        "bg-lime-100 text-lime-800"@,
        "bg-yellow-100 text-yellow-800"@,
        "bg-amber-100 text-amber-800"@,
        "bg-orange-100 text-orange-800"@,
        "bg-pink-100 text-pink-800"@,
        "bg-rose-100 text-rose-800"@,
        "bg-violet-100 text-violet-800"@,
        "bg-fuchsia-100 text-fuchsia-800"@,
    ]
}

/// Picks a color for a new category at random from the fixed palette.
pub fn assign_random_color() -> (r: String)
    ensures
        palette().contains(r@),
{
    let mut v: Vec<String> = Vec::new();
    v.push(String::from_str("bg-purple-100 text-purple-800"));
    v.push(String::from_str("bg-indigo-100 text-indigo-800"));
    v.push(String::from_str("bg-blue-100 text-blue-800"));
    v.push(String::from_str("bg-cyan-100 text-cyan-800"));
    v.push(String::from_str("bg-teal-100 text-teal-800"));
    v.push(String::from_str("bg-emerald-100 text-emerald-800"));
    v.push(String::from_str("bg-green-100 text-green-800"));
    v.push(String::from_str("bg-lime-100 text-lime-800"));
    v.push(String::from_str("bg-yellow-100 text-yellow-800"));
    v.push(String::from_str("bg-amber-100 text-amber-800"));
    v.push(String::from_str("bg-orange-100 text-orange-800"));
    v.push(String::from_str("bg-pink-100 text-pink-800"));
    v.push(String::from_str("bg-rose-100 text-rose-800"));
    v.push(String::from_str("bg-violet-100 text-violet-800"));
    v.push(String::from_str("bg-fuchsia-100 text-fuchsia-800"));
    proof {
        assert(views_of(v@) =~= palette());
    }
    let i = random_below(15);
    let r = v[i].clone();
    proof {
        assert(palette()[i as int] == r@);
    }
    r
}

/// The first index whose entry's key holds the characters of `name`,
/// or the length when no key matches.
pub open spec fn key_idx<V>(entries: Seq<(String, V)>, name: Seq<char>) -> int
    decreases entries.len(),
{
    if entries.len() == 0 {
        0
    } else if entries[0].0@ == name {
        0
    } else {
        1 + key_idx(entries.drop_first(), name)
    }
}

pub proof fn lemma_key_idx<V>(entries: Seq<(String, V)>, name: Seq<char>)
    ensures
        0 <= key_idx(entries, name) <= entries.len(),
        key_idx(entries, name) < entries.len() ==> entries[key_idx(entries, name)].0@ == name,
        forall|k: int| 0 <= k < key_idx(entries, name) ==> (#[trigger] entries[k]).0@ != name,
    decreases entries.len(),
{
    if entries.len() > 0 && entries[0].0@ != name {
        lemma_key_idx(entries.drop_first(), name);
        let rest = entries.drop_first();
        assert forall|k: int| 0 <= k < key_idx(entries, name) implies (#[trigger] entries[k]).0@
            != name by {
            if k > 0 {
                assert(entries[k] == rest[k - 1]);
            }
        }
        if key_idx(entries, name) < entries.len() {
            assert(entries[key_idx(entries, name)] == rest[key_idx(rest, name)]);
        }
    }
}

/// Finds the first entry with the given key.
fn find_key<V>(entries: &Vec<(String, V)>, name: &str) -> (r: usize)
    ensures
        r == key_idx(entries@, name@),
{
    proof {
        lemma_key_idx(entries@, name@);
    }
    let n = entries.len();
    let mut i: usize = 0;
    #[verifier::loop_isolation(false)]
    while i < n
        invariant
            i <= n,
            n == entries@.len(),
            forall|k: int| 0 <= k < i ==> (#[trigger] entries@[k]).0@ != name@,
        decreases n - i,
    {
        if str_eq(entries[i].0.as_str(), name) {
            return i;
        }
        i = i + 1;
    }
    i
}

/// Whether a tag record holds the default values.
pub open spec fn default_tags(r: ProjectTags) -> bool {
    &&& r.custom_title is None
    &&& r.progress@ == "planned"@
    &&& r.categories@.len() == 0
    &&& r.favorite == false
    &&& r.archived == false
    &&& r.notes@.len() == 0
}

/// Builds the tag record a project without stored tags is shown with.
pub fn default_project_tags() -> (r: ProjectTags)
    ensures
        default_tags(r),
{
    ProjectTags {
        custom_title: None,
        progress: String::from_str("planned"),
        categories: Vec::new(),
        favorite: false,
        archived: false,
        notes: String::new(),
    }
}

fn clone_string_vec(v: &Vec<String>) -> (r: Vec<String>)
    ensures
        r@ == v@,
{
    let n = v.len();
    let mut out: Vec<String> = Vec::new();
    let mut i: usize = 0;
    #[verifier::loop_isolation(false)]
    while i < n
        invariant
            i <= n,
            n == v@.len(),
            out@ =~= v@.take(i as int),
        decreases n - i,
    {
        out.push(v[i].clone());
        proof {
            assert(out@ =~= v@.take(i as int + 1));
        }
        i = i + 1;
    }
    proof {
        assert(v@.take(n as int) =~= v@);
    }
    out
}

fn clone_pair_vec(v: &Vec<(String, String)>) -> (r: Vec<(String, String)>)
    ensures
        r@ == v@,
{
    let n = v.len();
    let mut out: Vec<(String, String)> = Vec::new();
    let mut i: usize = 0;
    #[verifier::loop_isolation(false)]
    while i < n
        invariant
            i <= n,
            n == v@.len(),
            out@ =~= v@.take(i as int),
        decreases n - i,
    {
        let p = (v[i].0.clone(), v[i].1.clone());
        proof {
            assert(p == v@[i as int]);
        }
        out.push(p);
        proof {
            assert(out@ =~= v@.take(i as int + 1));
        }
        i = i + 1;
    }
    proof {
        assert(v@.take(n as int) =~= v@);
    }
    out
}

/// Whether two tag records hold the same values, the category list
/// compared element by element.
pub open spec fn tags_like(a: ProjectTags, b: ProjectTags) -> bool {
    &&& a.custom_title == b.custom_title
    &&& a.progress == b.progress
    &&& a.categories@ == b.categories@
    &&& a.favorite == b.favorite
    &&& a.archived == b.archived
    &&& a.notes == b.notes
}

/// Copies a tag record field by field.
pub fn clone_project_tags(t: &ProjectTags) -> (r: ProjectTags)
    ensures
        tags_like(r, *t),
{
    let custom_title = match &t.custom_title {
        Some(s) => Some(s.clone()),
        None => None,
    };
    let r = ProjectTags {
        custom_title,
        progress: t.progress.clone(),
        categories: clone_string_vec(&t.categories),
        favorite: t.favorite,
        archived: t.archived,
        notes: t.notes.clone(),
    };
    r
}

/// Looks a project's tags up by name; a project without a stored
/// record is shown with the default tags.
pub fn get_project_tags(all_tags: &Vec<(String, ProjectTags)>, name: &String) -> (r: ProjectTags)
    ensures
        ({
            let i = key_idx(all_tags@, name@);
            if i < all_tags@.len() {
                tags_like(r, all_tags@[i].1)
            } else {
                default_tags(r)
            }
        }),
{
    proof {
        lemma_key_idx(all_tags@, name@);
    }
    let i = find_key(all_tags, name.as_str());
    if i < all_tags.len() {
        clone_project_tags(&all_tags[i].1)
    } else {
        default_project_tags()
    }
}

/// The custom title as stored: trimmed, with an empty or over-long
/// (more than 50 characters) title normalized to absent.
pub open spec fn normalized_title(o: Option<String>) -> Option<Seq<char>> {
    match o {
        Some(s) => {
            let tr = trim_spec(s@);
            if tr.len() == 0 || tr.len() > 50 {
                None
            } else {
                Some(tr)
            }
        },
        None => None,
    }
}

/// Normalizes a custom title: trims it, and drops it when empty or
/// longer than 50 characters after trimming.
pub fn normalize_custom_title(title: Option<String>) -> (r: Option<String>)
    ensures
        opt_view(r) == normalized_title(title),
{
    match title {
        Some(s) => {
            let st = s.as_str();
            let n = st.unicode_len();
            let (a, b) = trim_range(st, 0, n);
            if a == b || b - a > 50 {
                None
            } else {
                Some(st.substring_char(a, b).to_owned())
            }
        },
        None => None,
    }
}

/// How a stored entry relates to the record that was handed in: the
/// key is the project name, the custom title is normalized, and every
/// other field is kept as given.
pub open spec fn entry_set(e: (String, ProjectTags), name: Seq<char>, tags: ProjectTags) -> bool {
    &&& e.0@ == name
    &&& opt_view(e.1.custom_title) == normalized_title(tags.custom_title)
    &&& e.1.progress == tags.progress
    &&& e.1.categories == tags.categories
    &&& e.1.favorite == tags.favorite
    &&& e.1.archived == tags.archived
    &&& e.1.notes == tags.notes
}

/// Stores a project's tags under its name, normalizing the custom
/// title; an existing record is replaced in place, a new one appended.
pub fn set_project_tags(all_tags: &mut Vec<(String, ProjectTags)>, name: &String, tags: ProjectTags)
    ensures
        ({
            let es0 = old(all_tags)@;
            let es1 = final(all_tags)@;
            let i = key_idx(es0, name@);
            &&& (i < es0.len() ==> es1.len() == es0.len() && entry_set(es1[i], name@, tags)
                && (forall|k: int| 0 <= k < es0.len() && k != i ==> es1[k] == #[trigger] es0[k]))
            &&& (i == es0.len() ==> es1.len() == es0.len() + 1 && entry_set(es1[i], name@, tags)
                && (forall|k: int| 0 <= k < es0.len() ==> es1[k] == #[trigger] es0[k]))
        }),
{
    proof {
        lemma_key_idx(old(all_tags)@, name@);
    }
    let custom_title = normalize_custom_title(tags.custom_title);
    let new_tags = ProjectTags {
        custom_title,
        progress: tags.progress,
        categories: tags.categories,
        favorite: tags.favorite,
        archived: tags.archived,
        notes: tags.notes,
    };
    let i = find_key(all_tags, name.as_str());
    if i < all_tags.len() {
        let _old = all_tags.remove(i);
        all_tags.insert(i, (name.clone(), new_tags));
    } else {
        all_tags.push((name.clone(), new_tags));
    }
}

/// The names of the projects whose stored categories hold `tag`, in
/// storage order.
pub open spec fn users_of(entries: Seq<(String, ProjectTags)>, tag: Seq<char>) -> Seq<Seq<char>>
    decreases entries.len(),
{
    if entries.len() == 0 {
        Seq::empty()
    } else {
        let rest = users_of(entries.drop_last(), tag);
        if contains_str(entries.last().1.categories@, tag) {
            rest.push(entries.last().0@)
        } else {
            rest
        }
    }
}

/// Collects the names of the projects that reference a category tag.
pub fn projects_using_tag(all_tags: &Vec<(String, ProjectTags)>, tag: &String) -> (r: Vec<String>)
    ensures
        views_of(r@) == users_of(all_tags@, tag@),
{
    let n = all_tags.len();
    let mut out: Vec<String> = Vec::new();
    let mut i: usize = 0;
    #[verifier::loop_isolation(false)]
    while i < n
        invariant
            i <= n,
            n == all_tags@.len(),
            views_of(out@) =~= users_of(all_tags@.take(i as int), tag@),
        decreases n - i,
    {
        proof {
            assert(all_tags@.take(i + 1).drop_last() =~= all_tags@.take(i as int));
            assert(all_tags@.take(i + 1).last() == all_tags@[i as int]);
        }
        let ghost prev = out@;
        if vec_contains_str(&all_tags[i].1.categories, tag.as_str()) {
            out.push(all_tags[i].0.clone());
            proof {
                assert(views_of(out@) =~= views_of(prev).push(all_tags@[i as int].0@));
            }
        }
        i = i + 1;
    }
    proof {
        assert(all_tags@.take(n as int) =~= all_tags@);
    }
    out
}

/// Adds a category tag to the vocabulary. A name already present is
/// refused and nothing is changed; otherwise the name is appended once
/// and, when it has no color yet, a palette color is drawn for it.
pub fn add_category_tag(defs: &TagDefinitions, colors: &TagColors, tag: &String) -> (r: Result<
    (TagDefinitions, TagColors),
    TagError,
>)
    ensures
        contains_str(defs.categories@, tag@) <==> r == Err::<(TagDefinitions, TagColors), TagError>(
            TagError::AlreadyExists,
        ),
        !contains_str(defs.categories@, tag@) ==> r is Ok,
        r matches Ok(p) ==> {
            &&& p.0.progress@ == defs.progress@
            &&& p.0.categories@ == defs.categories@.push(*tag)
            &&& p.1.progress@ == colors.progress@
            &&& (key_idx(colors.categories@, tag@) < colors.categories@.len() ==> p.1.categories@
                == colors.categories@)
            &&& (key_idx(colors.categories@, tag@) == colors.categories@.len() ==> exists|c: String|
                #[trigger] palette().contains(c@) && p.1.categories@ == colors.categories@.push(
                    (*tag, c),
                ))
        },
{
    proof {
        lemma_key_idx(colors.categories@, tag@);
    }
    if vec_contains_str(&defs.categories, tag.as_str()) {
        return Err(TagError::AlreadyExists);
    }
    let mut new_cats = clone_string_vec(&defs.categories);
    new_cats.push(tag.clone());
    let new_defs = TagDefinitions {
        progress: clone_string_vec(&defs.progress),
        categories: new_cats,
    };
    let mut new_cat_colors = clone_pair_vec(&colors.categories);
    let i = find_key(&colors.categories, tag.as_str());
    if i == colors.categories.len() {
        let c = assign_random_color();
        new_cat_colors.push((tag.clone(), c));
    }
    let new_colors = TagColors {
        progress: clone_pair_vec(&colors.progress),
        categories: new_cat_colors,
    };
    Ok((new_defs, new_colors))
}

/// Deletes a category tag from the vocabulary. An unknown name is
/// refused; a name still referenced by some project is refused with
/// the exact list of referencing project names; otherwise the name and
/// its color entry are removed.
pub fn delete_category_tag(
    defs: &TagDefinitions,
    colors: &TagColors,
    all_tags: &Vec<(String, ProjectTags)>,
    tag: &String,
) -> (r: Result<(TagDefinitions, TagColors), TagError>)
    ensures
        !contains_str(defs.categories@, tag@) ==> r == Err::<
            (TagDefinitions, TagColors),
            TagError,
        >(TagError::NotFound),
        contains_str(defs.categories@, tag@) && users_of(all_tags@, tag@).len() > 0 ==> (r matches
            Err(e) && e matches TagError::InUse(names) && views_of(names@) == users_of(
            all_tags@,
            tag@,
        )),
        contains_str(defs.categories@, tag@) && users_of(all_tags@, tag@).len() == 0 ==> (r matches
            Ok(p) && {
            let i = key_idx_str(defs.categories@, tag@);
            &&& p.0.progress@ == defs.progress@
            &&& p.0.categories@ == defs.categories@.remove(i)
            &&& p.1.progress@ == colors.progress@
            &&& (key_idx(colors.categories@, tag@) < colors.categories@.len() ==> p.1.categories@
                == colors.categories@.remove(key_idx(colors.categories@, tag@)))
            &&& (key_idx(colors.categories@, tag@) == colors.categories@.len() ==> p.1.categories@
                == colors.categories@)
        }),
{
    proof {
        lemma_key_idx_str(defs.categories@, tag@);
        lemma_key_idx(colors.categories@, tag@);
    }
    let i = find_name(&defs.categories, tag.as_str());
    if i == defs.categories.len() {
        return Err(TagError::NotFound);
    }
    let users = projects_using_tag(all_tags, tag);
    if users.len() > 0 {
        return Err(TagError::InUse(users));
    }
    let mut new_cats = clone_string_vec(&defs.categories);
    let _removed = new_cats.remove(i);
    let new_defs = TagDefinitions {
        progress: clone_string_vec(&defs.progress),
        categories: new_cats,
    };
    let mut new_cat_colors = clone_pair_vec(&colors.categories);
    let j = find_key(&colors.categories, tag.as_str());
    if j < new_cat_colors.len() {
        let _rc = new_cat_colors.remove(j);
    }
    let new_colors = TagColors {
        progress: clone_pair_vec(&colors.progress),
        categories: new_cat_colors,
    };
    Ok((new_defs, new_colors))
}

/// The first index of a name in a plain name list, or the length.
pub open spec fn key_idx_str(names: Seq<String>, name: Seq<char>) -> int
    decreases names.len(),
{
    if names.len() == 0 {
        0
    } else if names[0]@ == name {
        0
    } else {
        1 + key_idx_str(names.drop_first(), name)
    }
}

pub proof fn lemma_key_idx_str(names: Seq<String>, name: Seq<char>)
    ensures
        0 <= key_idx_str(names, name) <= names.len(),
        key_idx_str(names, name) < names.len() ==> names[key_idx_str(names, name)]@ == name,
        forall|k: int| 0 <= k < key_idx_str(names, name) ==> (#[trigger] names[k])@ != name,
        key_idx_str(names, name) < names.len() <==> contains_str(names, name),
    decreases names.len(),
{
    if names.len() > 0 && names[0]@ != name {
        lemma_key_idx_str(names.drop_first(), name);
        let rest = names.drop_first();
        assert forall|k: int| 0 <= k < key_idx_str(names, name) implies (#[trigger] names[k])@
            != name by {
            if k > 0 {
                assert(names[k] == rest[k - 1]);
            }
        }
        if key_idx_str(names, name) < names.len() {
            assert(names[key_idx_str(names, name)] == rest[key_idx_str(rest, name)]);
        }
        if contains_str(names, name) {
            let w = choose|w: int| 0 <= w < names.len() && names[w]@ == name;
            assert(rest[w - 1]@ == name);
            assert(contains_str(rest, name));
        }
        if contains_str(rest, name) {
            let w = choose|w: int| 0 <= w < rest.len() && rest[w]@ == name;
            assert(names[w + 1]@ == name);
        }
    }
}

/// Finds the first occurrence of a name in a plain name list.
fn find_name(names: &Vec<String>, name: &str) -> (r: usize)
    ensures
        r == key_idx_str(names@, name@),
{
    proof {
        lemma_key_idx_str(names@, name@);
    }
    let n = names.len();
    let mut i: usize = 0;
    #[verifier::loop_isolation(false)]
    while i < n
        invariant
            i <= n,
            n == names@.len(),
            forall|k: int| 0 <= k < i ==> (#[trigger] names@[k])@ != name@,
        decreases n - i,
    {
        if str_eq(names[i].as_str(), name) {
            return i;
        }
        i = i + 1;
    }
    i
}

/// Sets the color of a category tag: an existing entry is overwritten,
/// a missing one appended.
pub fn update_tag_color(colors: &TagColors, tag: &String, color: &String) -> (r: TagColors)
    ensures
        r.progress@ == colors.progress@,
        ({
            let j = key_idx(colors.categories@, tag@);
            &&& (j < colors.categories@.len() ==> r.categories@ == colors.categories@.update(
                j,
                (*tag, *color),
            ))
            &&& (j == colors.categories@.len() ==> r.categories@ == colors.categories@.push(
                (*tag, *color),
            ))
        }),
{
    proof {
        lemma_key_idx(colors.categories@, tag@);
    }
    let mut cats = clone_pair_vec(&colors.categories);
    let j = find_key(&colors.categories, tag.as_str());
    if j < cats.len() {
        let _old = cats.remove(j);
        cats.insert(j, (tag.clone(), color.clone()));
        proof {
            assert(cats@ =~= colors.categories@.update(
                key_idx(colors.categories@, tag@),
                (*tag, *color),
            ));
        }
    } else {
        cats.push((tag.clone(), color.clone()));
    }
    TagColors { progress: clone_pair_vec(&colors.progress), categories: cats }
}

} // verus!
