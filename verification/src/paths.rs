//! Paths as texts: joining, the home directory's `~`, and the name of a
//! workspace at the end of a path.

use crate::router::{is_workspace_chars, workspace_id};
use crate::session::text_of;
use crate::text::{
    after_last, chars_of, extend, has_prefix, is_text, rfind_before, starts_with, string_of,
    subvec,
};
use vstd::prelude::*;
use vstd::string::StringExecFns;

verus! {
/// `rest` under the directory `base`: `rest` itself where it is absolute,
/// else `base`, a separator unless `base` is empty or ends with one, and
/// `rest`.
pub open spec fn joined(base: Seq<char>, rest: Seq<char>) -> Seq<char> {
    if rest.len() > 0 && rest[0] == '/' {
        rest
    } else if base.len() == 0 || base.last() == '/' {
        base + rest
    } else {
        base.push('/') + rest
    }
}

/// Joins a path to a directory.
pub fn join_path(base: &str, rest: &str) -> (p: String)
    ensures
        p@ == joined(base@, rest@),
{
    let b = chars_of(base);
    let r = chars_of(rest);
    if r.len() > 0 && r[0] == '/' {
        return String::from_str(rest);
    }
    let mut v = b;
    if v.len() > 0 && v[v.len() - 1] != '/' {
        v.push('/');
    }
    extend(&mut v, r.as_slice());
    string_of(v.as_slice())
}

/// A path with `~` and `~/` at its start replaced by the home directory,
/// where that is known.
pub open spec fn tilde_expanded(path: Seq<char>, home: Option<Seq<char>>) -> Seq<char> {
    match home {
        Some(h) => if path == "~"@ {
            joined(h, Seq::<char>::empty())
        } else if has_prefix(path, "~/"@) {
            joined(h, path.skip(2))
        } else {
            path
        },
        None => path,
    }
}

/// Replaces `~` at the start of a path by the home directory.
pub fn expand_tilde(path: &str, home: Option<&str>) -> (p: String)
    ensures
        p@ == tilde_expanded(
            path@,
            match home {
                Some(h) => Some(h@),
                None => None,
            },
        ),
{
    let h = match home {
        Some(h) => h,
        None => {
            return String::from_str(path);
        },
    };
    let v = chars_of(path);
    if is_text(v.as_slice(), "~") {
        join_path(h, String::new().as_str())
    } else if starts_with(v.as_slice(), "~/") {
        proof {
            reveal_strlit("~/");
        }
        let rest = subvec(v.as_slice(), 2, v.len());
        join_path(h, string_of(rest.as_slice()).as_str())
    } else {
        String::from_str(path)
    }
}

/// The length of `s` without the slashes at its end.
pub open spec fn unslashed_len(s: Seq<char>) -> int
    decreases s.len(),
{
    if s.len() > 0 && s.last() == '/' {
        unslashed_len(s.drop_last())
    } else {
        s.len() as int
    }
}

/// The last component of a path: what stands after its last separator,
/// slashes at the end not counted.
pub open spec fn last_component(path: Seq<char>) -> Seq<char> {
    let end = unslashed_len(path);
    let start = after_last(path, '/', end);
    path.subrange(start, end)
}

/// The workspace that a path ends in: its last component, where that names
/// a workspace.
pub open spec fn workspace_in(path: Seq<char>) -> Option<Seq<char>> {
    if workspace_id(last_component(path)) {
        Some(last_component(path))
    } else {
        None
    }
}

proof fn lemma_unslashed_len(s: Seq<char>)
    ensures
        0 <= unslashed_len(s) <= s.len(),
    decreases s.len(),
{
    if s.len() > 0 && s.last() == '/' {
        lemma_unslashed_len(s.drop_last());
    }
}

/// Finds the workspace that a path ends in.
pub fn workspace_of(path: &str) -> (w: Option<String>)
    ensures
        text_of(w) == workspace_in(path@),
{
    let p = chars_of(path);
    let mut end: usize = p.len();
    proof {
        assert(p@.take(p@.len() as int) =~= p@);
    }
    while end > 0 && p[end - 1] == '/'
        invariant
            end <= p@.len(),
            unslashed_len(p@) == unslashed_len(p@.take(end as int)),
        decreases end,
    {
        proof {
            assert(p@.take(end as int).drop_last() =~= p@.take(end - 1));
        }
        end -= 1;
    }
    let start = rfind_before(p.as_slice(), '/', end);
    let name = subvec(p.as_slice(), start, end);
    if !is_workspace_chars(name.as_slice()) {
        return None;
    }
    Some(string_of(name.as_slice()))
}

/// `s` without the slashes at its end.
pub open spec fn unslashed(s: Seq<char>) -> Seq<char> {
    s.take(unslashed_len(s))
}

/// The file that a download names: the path itself where it is absolute,
/// else the path under the session's directory; `None` for a relative path
/// without a session.
pub open spec fn download_target(file_path: Seq<char>, current: Option<Seq<char>>) -> Option<
    Seq<char>,
> {
    if file_path.len() > 0 && file_path[0] == '/' {
        Some(file_path)
    } else {
        match current {
            Some(base) => Some(unslashed(base).push('/') + file_path),
            None => None,
        }
    }
}

/// Resolves the file that a download names.
pub fn resolve_download(file_path: &str, current: Option<&str>) -> (r: Option<String>)
    ensures
        text_of(r) == download_target(
            file_path@,
            match current {
                Some(c) => Some(c@),
                None => None,
            },
        ),
{
    let f = chars_of(file_path);
    if f.len() > 0 && f[0] == '/' {
        return Some(String::from_str(file_path));
    }
    match current {
        Some(base) => {
            let b = chars_of(base);
            let mut end: usize = b.len();
            proof {
                assert(b@.take(b@.len() as int) =~= b@);
            }
            while end > 0 && b[end - 1] == '/'
                invariant
                    end <= b@.len(),
                    unslashed_len(b@) == unslashed_len(b@.take(end as int)),
                decreases end,
            {
                proof {
                    assert(b@.take(end as int).drop_last() =~= b@.take(end - 1));
                }
                end -= 1;
            }
            let mut v = subvec(b.as_slice(), 0, end);
            v.push('/');
            extend(&mut v, f.as_slice());
            Some(string_of(v.as_slice()))
        },
        None => None,
    }
}

} // verus!
