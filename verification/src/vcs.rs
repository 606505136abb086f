use vstd::prelude::*;
use vstd::string::*;
use crate::readme::{content_end, line_end};
use crate::text::{find_char, find_char_from, find_ws, find_ws_from, parse_i64_range, parse_i64_spec, skip_ws, trim_in, trim_range};
use crate::time_ext::{now_rfc3339, rfc3339_of, timestamp_to_rfc3339, ts_in_range};

verus! {

/// Whether the trimmed form of the line `[i, e)` starts with `url`:
/// the first three characters after the leading whitespace.
pub open spec fn starts_url(s: Seq<char>, i: int, e: int) -> bool {
    let t = skip_ws(s, i, e);
    t + 3 <= e && s[t] == 'u' && s[t + 1] == 'r' && s[t + 2] == 'l'
}

/// The remote URL a version-control config text declares: scanning from
/// line `i` on, the first line whose trimmed form starts with `url` and
/// that holds a `=` yields what follows the first `=`, trimmed.
pub open spec fn remote_from(s: Seq<char>, i: int) -> Option<Seq<char>>
    decreases s.len() + 1 - i,
{
    if i >= s.len() || i < 0 {
        None
    } else {
        let j = line_end(s, i);
        let e = content_end(s, i);
        let next = if i < j + 1 <= s.len() {
            j + 1
        } else {
            s.len() as int
        };
        if starts_url(s, i, e) {
            let q = find_char(s, i, e, '=');
            if q < e {
                Some(trim_in(s, q + 1, e))
            } else {
                remote_from(s, next)
            }
        } else {
            remote_from(s, next)
        }
    }
}

/// Reads the remote URL out of an optional version-control config text;
/// a missing or unreadable file yields none.
pub fn extract_git_remote(config: Option<&String>) -> (r: Option<String>)
    ensures
        ({
            let sr = match config {
                Some(c) => remote_from(c@, 0),
                None => None,
            };
            match r {
                Some(u) => sr == Some(u@),
                None => sr is None,
            }
        }),
{
    let c = match config {
        Some(c) => c,
        None => {
            return None;
        },
    };
    let s = c.as_str();
    let n = s.unicode_len();
    let mut i: usize = 0;
    #[verifier::loop_isolation(false)]
    while i < n
        invariant
            i <= n,
            n == s@.len(),
            remote_from(s@, 0) == remote_from(s@, i as int),
        decreases n - i,
    {
        let j = find_char_from(s, i, n, '\n');
        let e = if j > i && s.get_char(j - 1) == '\r' {
            j - 1
        } else {
            j
        };
        assert(e == content_end(s@, i as int));
        let next = if j < n {
            j + 1
        } else {
            n
        };
        let (t, _b) = trim_range(s, i, e);
        let is_url = e >= 3 && t <= e - 3 && s.get_char(t) == 'u' && s.get_char(t + 1) == 'r'
            && s.get_char(t + 2) == 'l';
        assert(is_url == starts_url(s@, i as int, e as int));
        if is_url {
            let q = find_char_from(s, i, e, '=');
            if q < e {
                let (va, vb) = trim_range(s, q + 1, e);
                let url = s.substring_char(va, vb).to_owned();
                assert(url@ == trim_in(s@, q + 1 as int, e as int));
                return Some(url);
            }
        }
        i = next;
    }
    assert(remote_from(s@, i as int) is None);
    None
}

/// The bounds of the last non-empty line of `s`, scanning from `i` with
/// `cur` the last one seen so far.
pub open spec fn last_line_from(s: Seq<char>, i: int, cur: Option<(int, int)>) -> Option<(int, int)>
    decreases s.len() + 1 - i,
{
    if i >= s.len() || i < 0 {
        cur
    } else {
        let j = line_end(s, i);
        let e = content_end(s, i);
        let next = if i < j + 1 <= s.len() {
            j + 1
        } else {
            s.len() as int
        };
        let cur2 = if e > i {
            Some((i, e))
        } else {
            cur
        };
        last_line_from(s, next, cur2)
    }
}

/// The Unix timestamp a version-control reflog text carries: on its last
/// non-empty line, the first whitespace-delimited field after the first
/// `>`, read as a signed decimal number.
pub open spec fn log_ts(s: Seq<char>) -> Option<int> {
    match last_line_from(s, 0, None) {
        None => None,
        Some((i, e)) => {
            let g = find_char(s, i, e, '>');
            if g >= e {
                None
            } else {
                let t0 = skip_ws(s, g + 1, e);
                let t1 = find_ws(s, t0, e);
                parse_i64_spec(s, t0, t1)
            }
        },
    }
}

/// Reads the last-activity timestamp out of a reflog text.
pub fn extract_log_timestamp(s: &str) -> (r: Option<i64>)
    ensures
        match r {
            Some(v) => log_ts(s@) == Some(v as int),
            None => log_ts(s@) is None,
        },
{
    let n = s.unicode_len();
    let mut i: usize = 0;
    let mut lo: usize = 0;
    let mut hi: usize = 0;
    let mut have = false;
    #[verifier::loop_isolation(false)]
    while i < n
        invariant
            i <= n,
            n == s@.len(),
            lo <= hi <= n,
            last_line_from(s@, 0, None) == last_line_from(
                s@,
                i as int,
                if have {
                    Some((lo as int, hi as int))
                } else {
                    None
                },
            ),
        decreases n - i,
    {
        let j = find_char_from(s, i, n, '\n');
        let e = if j > i && s.get_char(j - 1) == '\r' {
            j - 1
        } else {
            j
        };
        assert(e == content_end(s@, i as int));
        let next = if j < n {
            j + 1
        } else {
            n
        };
        if e > i {
            lo = i;
            hi = e;
            have = true;
        }
        i = next;
    }
    if !have {
        assert(log_ts(s@) is None);
        return None;
    }
    let g = find_char_from(s, lo, hi, '>');
    if g >= hi {
        assert(log_ts(s@) is None);
        return None;
    }
    let (t0, _) = trim_range(s, g + 1, hi);
    let t1 = find_ws_from(s, t0, hi);
    parse_i64_range(s, t0, t1)
}

/// The timestamp the reflog of an optional config text yields.
pub open spec fn opt_log_ts(c: Option<Seq<char>>) -> Option<int> {
    match c {
        Some(s) => log_ts(s),
        None => None,
    }
}

/// The view of an optional borrowed string.
pub open spec fn opt_ref_view(o: Option<&String>) -> Option<Seq<char>> {
    match o {
        Some(s) => Some(s@),
        None => None,
    }
}

/// Chooses the last-modified string by precedence: the commit-derived
/// rendering first, then the one derived from the directory's
/// modification time, then the current time.
pub fn pick_last_modified(git: Option<String>, mtime: Option<String>, now: String) -> (r: String)
    ensures
        r@ == (match git {
            Some(g) => g@,
            None => match mtime {
                Some(m) => m@,
                None => now@,
            },
        }),
{
    match git {
        Some(g) => g,
        None => match mtime {
            Some(m) => m,
            None => now,
        },
    }
}

/// What holds of the result when the reflog yields no usable instant:
/// a representable directory modification time is rendered as RFC 3339;
/// failing that, the result is the rendering of the current time, which
/// no contract can pin down.
pub open spec fn mtime_or_now_ok(dir_mtime: Option<i64>, r: Seq<char>) -> bool {
    match dir_mtime {
        Some(m) => ts_in_range(m as int) ==> r == rfc3339_of(m as int),
        None => true,
    }
}

/// What holds of a last-modified result: a representable timestamp read
/// from the reflog is rendered as RFC 3339; otherwise the directory's
/// modification time or, as the last resort, the current time decides.
pub open spec fn last_modified_ok(log: Option<Seq<char>>, dir_mtime: Option<i64>, r: Seq<
    char,
>) -> bool {
    match opt_log_ts(log) {
        Some(t) => if ts_in_range(t) {
            r == rfc3339_of(t)
        } else {
            mtime_or_now_ok(dir_mtime, r)
        },
        None => mtime_or_now_ok(dir_mtime, r),
    }
}

/// Derives the last-modified timestamp string of a project: the time of
/// the last commit in the reflog when one can be read and rendered, else
/// the directory's modification time, else the current time.
pub fn get_last_modified_date(git_log: Option<&String>, dir_mtime: Option<i64>) -> (r: String)
    ensures
        last_modified_ok(opt_ref_view(git_log), dir_mtime, r@),
{
    let git_r: Option<String> = match git_log {
        Some(g) => match extract_log_timestamp(g.as_str()) {
            Some(ts) => timestamp_to_rfc3339(ts),
            None => None,
        },
        None => None,
    };
    let mt_r: Option<String> = match dir_mtime {
        Some(m) => timestamp_to_rfc3339(m),
        None => None,
    };
    let now = now_rfc3339();
    pick_last_modified(git_r, mt_r, now)
}

} // verus!
