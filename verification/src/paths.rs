//! Plain-string path handling: the final name component of a path, tilde
//! expansion, and joining a directory with an entry name.

use vstd::prelude::*;

use crate::naming::{last_index_of, lemma_last_index_of, find_last};

verus! {

/// `p` with every trailing `/` removed.
pub open spec fn strip_trailing_slashes(p: Seq<char>) -> Seq<char>
    decreases p.len(),
{
    if p.len() > 0 && p.last() == '/' {
        strip_trailing_slashes(p.drop_last())
    } else {
        p
    }
}

/// The text after the last `/` of `p`, or all of `p` when it has none.
pub open spec fn last_segment(p: Seq<char>) -> Seq<char> {
    match last_index_of(p, '/') {
        Some(i) => p.subrange(i + 1, p.len() as int),
        None => p,
    }
}

/// The final name component of a path: the text after the last `/`, ignoring
/// trailing slashes.  A path with no such component (the root, the empty
/// path, or one ending in `.` or `..`) has none.
pub open spec fn spec_basename(p: Seq<char>) -> Option<Seq<char>> {
    let seg = last_segment(strip_trailing_slashes(p));
    if seg.len() == 0 || seg == "."@ || seg == ".."@ {
        None
    } else {
        Some(seg)
    }
}

/// Returns the final name component of `path`, if it has one.
pub fn basename(path: &str) -> (r: Option<String>)
    ensures
        match r {
            Some(s) => spec_basename(path@) == Some(s@),
            None => spec_basename(path@) is None,
        },
{
    let len = path.unicode_len();
    let mut end = len;
    assert(path@.subrange(0, len as int) =~= path@);
    while end > 0 && path.get_char(end - 1) == '/'
        invariant
            end <= len,
            len == path@.len(),
            strip_trailing_slashes(path@) == strip_trailing_slashes(
                path@.subrange(0, end as int),
            ),
        decreases end,
    {
        proof {
            assert(path@.subrange(0, end as int).drop_last() =~= path@.subrange(0, end - 1));
        }
        end = end - 1;
    }
    let stripped = path.substring_char(0, end);
    assert(strip_trailing_slashes(path@) == stripped@);
    let seg: String = match find_last(stripped, '/') {
        Some(i) => {
            proof {
                lemma_last_index_of(stripped@, '/');
            }
            stripped.substring_char(i + 1, end).to_owned()
        },
        None => stripped.to_owned(),
    };
    assert(seg@ == last_segment(strip_trailing_slashes(path@)));
    if seg.as_str().unicode_len() == 0 {
        return None;
    }
    let dot: String = ".".to_owned();
    let dotdot: String = "..".to_owned();
    if seg.eq(&dot) || seg.eq(&dotdot) {
        return None;
    }
    Some(seg)
}

/// A user-supplied path with a leading `~` expanded: the `~` and the
/// following character are dropped and the rest is joined to the home
/// directory, except that an absolute rest stands alone.  A path without a
/// leading `~` is returned unchanged.
pub open spec fn spec_expand_tilde(path: Seq<char>, home: Seq<char>) -> Seq<char> {
    if path.len() > 0 && path[0] == '~' {
        let rest = path.subrange(2, path.len() as int);
        if rest.len() > 0 && rest[0] == '/' {
            rest
        } else if home.len() == 0 {
            rest
        } else if home.last() == '/' {
            home + rest
        } else {
            home + seq!['/'] + rest
        }
    } else {
        path
    }
}

/// Expands a leading `~` in `path` against the home directory `home`.
pub fn expand_tilde(path: &str, home: &str) -> (r: String)
    requires
        path@.len() == 1 ==> path@[0] != '~',
    ensures
        r@ == spec_expand_tilde(path@, home@),
{
    proof {
        reveal_strlit("/");
    }
    let len = path.unicode_len();
    if len > 0 && path.get_char(0) == '~' {
        let rest = path.substring_char(2, len);
        let rlen = rest.unicode_len();
        if rlen > 0 && rest.get_char(0) == '/' {
            rest.to_owned()
        } else {
            let hlen = home.unicode_len();
            if hlen == 0 {
                rest.to_owned()
            } else {
                let mut s = home.to_owned();
                if home.get_char(hlen - 1) != '/' {
                    s.append("/");
                }
                s.append(rest);
                assert(s@ =~= spec_expand_tilde(path@, home@));
                s
            }
        }
    } else {
        path.to_owned()
    }
}

/// `dir` and `name` joined with a `/` separator.
pub open spec fn joined(dir: Seq<char>, name: Seq<char>) -> Seq<char> {
    dir + seq!['/'] + name
}

/// Joins a directory path and an entry name with a `/` separator.
pub fn join_path(dir: &str, name: &str) -> (r: String)
    ensures
        r@ == joined(dir@, name@),
{
    proof {
        reveal_strlit("/");
    }
    let mut s = dir.to_owned();
    s.append("/");
    s.append(name);
    assert(s@ =~= joined(dir@, name@));
    s
}

} // verus!
