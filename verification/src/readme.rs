use vstd::prelude::*;
use vstd::string::*;
use crate::text::{blank_in, find_char, find_char_from, trim_in, trim_range};

verus! {

/// The placeholder description used when nothing could be derived.
pub open spec fn no_description() -> Seq<char> {
    "no description"@
}

/// First index in `[lo, hi)` not holding `'#'`, or `hi`.
pub open spec fn skip_hash(s: Seq<char>, lo: int, hi: int) -> int
    decreases hi - lo,
{
    if lo >= hi {
        hi
    } else if s[lo] == '#' {
        skip_hash(s, lo + 1, hi)
    } else {
        lo
    }
}

fn skip_hash_from(s: &str, lo: usize, hi: usize) -> (r: usize)
    requires
        lo <= hi <= s@.len(),
    ensures
        r == skip_hash(s@, lo as int, hi as int),
        lo <= r <= hi,
{
    let mut i = lo;
    #[verifier::loop_isolation(false)]
    while i < hi && s.get_char(i) == '#'
        invariant
            lo <= i <= hi,
            skip_hash(s@, lo as int, hi as int) == skip_hash(s@, i as int, hi as int),
        decreases hi - i,
    {
        i = i + 1;
    }
    assert(skip_hash(s@, i as int, hi as int) == i as int);
    i
}

/// End of the line starting at `i`: the first `'\n'` at or after `i`,
/// or the end of the text.
pub open spec fn line_end(s: Seq<char>, i: int) -> int {
    find_char(s, i, s.len() as int, '\n')
}

/// End of the line's content: as `line_end`, but leaving out one
/// carriage return just before the line break.
pub open spec fn content_end(s: Seq<char>, i: int) -> int {
    let j = line_end(s, i);
    if j > i && s[j - 1] == '\r' {
        j - 1
    } else {
        j
    }
}

/// The title a heading line `[i, e)` contributes: the leading `'#'`
/// markers stripped, then whitespace trimmed.
pub open spec fn heading_title(s: Seq<char>, i: int, e: int) -> Seq<char> {
    trim_in(s, skip_hash(s, i, e), e)
}

/// One line-by-line step of the readme scan, carried out to the end of
/// the text: the first non-blank heading line becomes the title and
/// sets `found`; after that, the first non-heading line longer than
/// ten characters is appended to the title and the scan stops.
pub open spec fn summarize_from(s: Seq<char>, i: int, found: bool, title: Seq<char>) -> Seq<char>
    decreases s.len() + 1 - i,
{
    if i >= s.len() || i < 0 {
        title
    } else {
        let j = line_end(s, i);
        let e = content_end(s, i);
        let next = if i < j + 1 <= s.len() {
            j + 1
        } else {
            s.len() as int
        };
        if blank_in(s, i, e) {
            summarize_from(s, next, found, title)
        } else if s[i] == '#' {
            if found {
                summarize_from(s, next, found, title)
            } else {
                summarize_from(s, next, true, heading_title(s, i, e))
            }
        } else if found && e - i > 10 {
            title.push(' ') + trim_in(s, i, e)
        } else {
            summarize_from(s, next, found, title)
        }
    }
}

/// The raw summary of a readme text, before the placeholder and the
/// length cap are applied.
pub open spec fn summary_core(s: Seq<char>) -> Seq<char> {
    summarize_from(s, 0, false, Seq::empty())
}

/// The summary of a readme text: the scanned title and body line,
/// capped at 150 characters, or the placeholder when empty.
pub open spec fn summary_of(s: Seq<char>) -> Seq<char> {
    let d = summary_core(s);
    if d.len() == 0 {
        no_description()
    } else if d.len() > 150 {
        d.take(150)
    } else {
        d
    }
}

/// Derives a short description from readme text: the first heading's
/// title, extended by the first following line longer than ten
/// characters, capped at 150 characters.
pub fn summarize(s: &str) -> (r: String)
    ensures
        r@ == summary_of(s@),
{
    let n = s.unicode_len();
    let mut i: usize = 0;
    let mut found = false;
    let mut tlo: usize = 0;
    let mut thi: usize = 0;
    let mut blo: usize = 0;
    let mut bhi: usize = 0;
    let mut has_body = false;
    assert(s@.subrange(0, 0) =~= Seq::<char>::empty());
    #[verifier::loop_isolation(false)]
    while i < n && !has_body
        invariant
            i <= n,
            n == s@.len(),
            tlo <= thi <= n,
            blo <= bhi <= n,
            !has_body ==> summary_core(s@) == summarize_from(
                s@,
                i as int,
                found,
                s@.subrange(tlo as int, thi as int),
            ),
            has_body ==> summary_core(s@) == s@.subrange(tlo as int, thi as int).push(' ')
                + s@.subrange(blo as int, bhi as int),
        decreases n - i,
    {
        let j = find_char_from(s, i, n, '\n');
        let e = if j > i && s.get_char(j - 1) == '\r' {
            j - 1
        } else {
            j
        };
        assert(e == content_end(s@, i as int));
        let (a, b) = trim_range(s, i, e);
        let ghost title0 = s@.subrange(tlo as int, thi as int);
        let next = if j < n {
            j + 1
        } else {
            n
        };
        if a < b {
            assert(!blank_in(s@, i as int, e as int));
            if s.get_char(i) == '#' {
                if !found {
                    found = true;
                    let h = skip_hash_from(s, i, e);
                    let (ta, tb) = trim_range(s, h, e);
                    tlo = ta;
                    thi = tb;
                    assert(s@.subrange(tlo as int, thi as int) == heading_title(
                        s@,
                        i as int,
                        e as int,
                    ));
                    assert(summarize_from(s@, i as int, false, title0) == summarize_from(
                        s@,
                        next as int,
                        true,
                        s@.subrange(tlo as int, thi as int),
                    ));
                } else {
                    assert(summarize_from(s@, i as int, found, title0) == summarize_from(
                        s@,
                        next as int,
                        found,
                        title0,
                    ));
                }
            } else if found && e - i > 10 {
                blo = a;
                bhi = b;
                has_body = true;
                assert(s@.subrange(blo as int, bhi as int) == trim_in(s@, i as int, e as int));
                assert(summarize_from(s@, i as int, found, title0) == title0.push(' ')
                    + trim_in(s@, i as int, e as int));
            } else {
                assert(summarize_from(s@, i as int, found, title0) == summarize_from(
                    s@,
                    next as int,
                    found,
                    title0,
                ));
            }
        } else {
            proof {
                crate::text::lemma_skip_ws_bounds(s@, i as int, e as int);
                crate::text::lemma_rskip_ws_bounds(s@, a as int, e as int);
            }
            assert(blank_in(s@, i as int, e as int));
            assert(summarize_from(s@, i as int, found, title0) == summarize_from(
                s@,
                next as int,
                found,
                title0,
            ));
        }
        i = next;
    }
    proof {
        if !has_body {
            assert(summarize_from(
                s@,
                i as int,
                found,
                s@.subrange(tlo as int, thi as int),
            ) == s@.subrange(tlo as int, thi as int));
        }
    }
    let title_str = s.substring_char(tlo, thi);
    let mut out = title_str.to_owned();
    if has_body {
        out.append(" ");
        proof {
            reveal_strlit(" ");
            assert(s@.subrange(tlo as int, thi as int) + " "@ =~= s@.subrange(
                tlo as int,
                thi as int,
            ).push(' '));
        }
        let body_str = s.substring_char(blo, bhi);
        out.append(body_str);
    }
    assert(out@ == summary_core(s@));
    let m = out.unicode_len();
    if m == 0 {
        let r = String::from_str("no description");
        assert(r@ == summary_of(s@));
        r
    } else if m > 150 {
        let r = out.as_str().substring_char(0, 150).to_owned();
        assert(r@ =~= summary_core(s@).take(150));
        r
    } else {
        out
    }
}

/// Derives a description from an optional readme text; a missing or
/// unreadable file yields the placeholder.
pub fn extract_description(content: Option<&String>) -> (r: String)
    ensures
        r@ == match content {
            Some(c) => summary_of(c@),
            None => no_description(),
        },
{
    match content {
        Some(c) => summarize(c.as_str()),
        None => {
            let r = String::from_str("no description");
            r
        },
    }
}

/// Law: readme summarization is deterministic, so running it twice on
/// the same content yields the same string; it is total by its type,
/// yielding the placeholder for missing or empty content.
pub proof fn lemma_summarize_repeatable(r1: Seq<char>, r2: Seq<char>, c: Seq<char>)
    requires
        r1 == summary_of(c),
        r2 == summary_of(c),
    ensures
        r1 == r2,
{
}

/// Law: a summary never exceeds 150 characters, counted in characters,
/// never in bytes, so no multi-byte character is ever split.
pub proof fn lemma_summary_bounded(s: Seq<char>)
    ensures
        summary_of(s).len() <= 150,
{
    reveal_strlit("no description");
}

} // verus!
