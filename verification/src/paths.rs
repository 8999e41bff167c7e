//! Verified path-string helpers for the report artifacts: the final
//! component of a slash-separated path, and extension replacement on the
//! artifact base name.  The base name splits at forward slashes; the
//! extension dot is confined to the final component under both the
//! forward-slash and the backslash separator convention.

use vstd::prelude::*;
use vstd::string::*;

verus! {

/// The index right after the last `/` of `s` (0 when there is none):
/// where the final path component starts.
pub open spec fn last_slash_end(s: Seq<char>) -> int
    decreases s.len(),
{
    if s.len() == 0 {
        0
    } else if s.last() == '/' {
        s.len() as int
    } else {
        last_slash_end(s.drop_last())
    }
}

pub proof fn lemma_last_slash_end(s: Seq<char>)
    ensures
        0 <= last_slash_end(s) <= s.len(),
        last_slash_end(s) > 0 ==> s[last_slash_end(s) - 1] == '/',
        forall|j: int| last_slash_end(s) <= j < s.len() ==> s[j] != '/',
    decreases s.len(),
{
    if s.len() > 0 && s.last() != '/' {
        lemma_last_slash_end(s.drop_last());
        assert(forall|j: int| 0 <= j < s.len() - 1 ==> s.drop_last()[j] == s[j]);
    }
}

/// The final component of a path: everything after the last `/`, or the
/// whole path when it has none.
pub open spec fn basename_spec(s: Seq<char>) -> Seq<char> {
    s.skip(last_slash_end(s))
}

/// Extracts the final component of a slash-separated path.
pub fn after_last_slash<'a>(s: &'a str) -> (r: &'a str)
    ensures
        r@ == basename_spec(s@),
{
    let len = s.unicode_len();
    proof {
        lemma_last_slash_end(s@);
    }
    let mut i: usize = len;
    while i > 0
        invariant
            i <= len,
            len == s@.len(),
            forall|j: int| i <= j < len ==> s@[j] != '/',
        decreases i,
    {
        proof {
            lemma_last_slash_end(s@);
        }
        if s.get_char(i - 1) == '/' {
            proof {
                lemma_last_slash_end(s@);
                let ls = last_slash_end(s@);
                if ls < i {
                    assert(s@[i - 1] != '/');
                }
                if ls > i {
                    assert(s@[ls - 1] != '/');
                }
            }
            return s.substring_char(i, len);
        }
        i -= 1;
    }
    proof {
        lemma_last_slash_end(s@);
        let ls = last_slash_end(s@);
        if ls > 0 {
            assert(s@[ls - 1] != '/');
        }
        assert(s@.subrange(0, len as int) =~= s@.skip(0));
    }
    s.substring_char(0, len)
}

/// A path separator, for the purpose of confining the extension dot to
/// the final path component: forward slash or backslash, so that a dot
/// inside a directory name is never taken for an extension under either
/// separator convention.
pub open spec fn is_sep_char(c: char) -> bool {
    c == '/' || c == '\\'
}

/// The index right after the last separator of `s` (0 when there is
/// none), counting both separator conventions.
pub open spec fn last_sep_end(s: Seq<char>) -> int
    decreases s.len(),
{
    if s.len() == 0 {
        0
    } else if is_sep_char(s.last()) {
        s.len() as int
    } else {
        last_sep_end(s.drop_last())
    }
}

pub proof fn lemma_last_sep_end(s: Seq<char>)
    ensures
        0 <= last_sep_end(s) <= s.len(),
        last_sep_end(s) > 0 ==> is_sep_char(s[last_sep_end(s) - 1]),
        forall|j: int| last_sep_end(s) <= j < s.len() ==> !is_sep_char(s[j]),
    decreases s.len(),
{
    if s.len() > 0 && !is_sep_char(s.last()) {
        lemma_last_sep_end(s.drop_last());
        assert(forall|j: int| 0 <= j < s.len() - 1 ==> s.drop_last()[j] == s[j]);
    }
}

/// The position of the extension dot of the final path component: the
/// last `.` of the component, except as its first character (a leading
/// dot starts a hidden file name, not an extension).  A path ending in a
/// separator has no extension dot, so the extension is appended there.
pub open spec fn ext_dot(s: Seq<char>) -> Option<int>
    decreases s.len(),
{
    if s.len() == 0 {
        None
    } else if is_sep_char(s.last()) {
        None
    } else if s.last() == '.' && s.len() - 1 > last_sep_end(s) {
        Some(s.len() - 1)
    } else if s.last() == '.' {
        None
    } else {
        ext_dot(s.drop_last())
    }
}

pub proof fn lemma_ext_dot(s: Seq<char>)
    ensures
        match ext_dot(s) {
            Some(k) => {
                &&& 0 <= k < s.len()
                &&& s[k] == '.'
                &&& k > last_sep_end(s)
                &&& forall|j: int| k < j < s.len() ==> s[j] != '.' && !is_sep_char(s[j])
            },
            None => forall|j: int| last_sep_end(s) < j < s.len() ==> s[j] != '.',
        },
    decreases s.len(),
{
    lemma_last_sep_end(s);
    if s.len() == 0 {
    } else if is_sep_char(s.last()) {
    } else if s.last() == '.' && s.len() - 1 > last_sep_end(s) {
    } else if s.last() == '.' {
        // The final dot sits at the start of the final component; there
        // is no dot strictly after the component start.
        assert(last_sep_end(s) == s.len() - 1);
    } else {
        lemma_ext_dot(s.drop_last());
        assert(forall|j: int| 0 <= j < s.len() - 1 ==> s.drop_last()[j] == s[j]);
        assert(last_sep_end(s.drop_last()) == last_sep_end(s));
    }
}

/// A path with the extension of its final component replaced (or, for a
/// component without one, appended): what the artifact writer does to
/// derive the sibling `.html` and `.json` file names.  Both separator
/// conventions bound the component; a path ending in a separator gets
/// the extension appended.
pub open spec fn with_extension_spec(s: Seq<char>, ext: Seq<char>) -> Seq<char> {
    let base = match ext_dot(s) {
        Some(k) => s.subrange(0, k),
        None => s,
    };
    base + "."@ + ext
}

/// Replaces (or appends) the extension of the final path component.
pub fn with_extension(s: &str, ext: &str) -> (r: String)
    ensures
        r@ == with_extension_spec(s@, ext@),
{
    let len = s.unicode_len();
    proof {
        lemma_ext_dot(s@);
        lemma_last_slash_end(s@);
    }
    let mut i: usize = len;
    let mut base_end: usize = len;
    let mut found: bool = false;
    let mut stopped: bool = false;
    while i > 0 && !found && !stopped
        invariant
            i <= len,
            len == s@.len(),
            !found && !stopped ==> forall|j: int|
                i <= j < len ==> s@[j] != '.' && !is_sep_char(s@[j]),
            !found ==> base_end == len,
            found ==> ext_dot(s@) == Some(base_end as int) && base_end <= len,
            stopped ==> !found && ext_dot(s@) is None,
        decreases i + (if found || stopped {
            0int
        } else {
            1int
        }),
    {
        proof {
            lemma_last_sep_end(s@);
            lemma_ext_dot(s@);
        }
        let c = s.get_char(i - 1);
        if c == '/' || c == '\\' {
            proof {
                match ext_dot(s@) {
                    Some(k) => {
                        if k >= i {
                            assert(s@[k] != '.');
                        } else {
                            assert(k > last_sep_end(s@));
                            assert(last_sep_end(s@) >= i) by {
                                if last_sep_end(s@) < i {
                                    assert(!is_sep_char(s@[i - 1]));
                                }
                            }
                        }
                    },
                    None => {},
                }
            }
            stopped = true;
        } else if c == '.' {
            if i - 1 > 0 && {
                let p = s.get_char(i - 2);
                p != '/' && p != '\\'
            } {
                proof {
                    // The dot is inside the final component: no separator
                    // follows it, and the component starts at or before
                    // the previous character.
                    let ls = last_sep_end(s@);
                    assert(ls < i - 1) by {
                        if ls >= i {
                            assert(!is_sep_char(s@[ls - 1]));
                        }
                        if ls == i - 1 {
                            assert(is_sep_char(s@[i - 2]));
                        }
                    }
                    match ext_dot(s@) {
                        Some(k) => {
                            if k > i - 1 {
                                assert(s@[k] != '.');
                            }
                            if k < i - 1 {
                                assert(s@[i - 1] != '.');
                            }
                        },
                        None => {
                            assert(s@[i - 1] != '.');
                        },
                    }
                }
                base_end = i - 1;
                found = true;
            } else {
                proof {
                    // A dot at the very start of the final component is
                    // not an extension dot, and nothing to its left can
                    // be one either.
                    let ls = last_sep_end(s@);
                    assert(ls == i - 1) by {
                        if ls < i - 1 {
                            if i - 1 > 0 {
                                assert(is_sep_char(s@[i - 2]));
                            }
                        }
                        if ls >= i {
                            assert(!is_sep_char(s@[ls - 1]));
                        }
                    }
                    match ext_dot(s@) {
                        Some(k) => {
                            if k > i - 1 {
                                assert(s@[k] != '.');
                            }
                            assert(k > ls);
                        },
                        None => {},
                    }
                }
                stopped = true;
            }
        } else {
            i -= 1;
        }
    }
    proof {
        lemma_ext_dot(s@);
        if !found && !stopped {
            match ext_dot(s@) {
                Some(k) => {
                    assert(s@[k] != '.');
                },
                None => {},
            }
        }
    }
    let base = s.substring_char(0, base_end);
    let mut r = base.to_owned();
    r.append(".");
    r.append(ext);
    proof {
        reveal_strlit(".");
        if found {
            assert(r@ =~= with_extension_spec(s@, ext@));
        } else {
            assert(s@.subrange(0, len as int) =~= s@);
            assert(r@ =~= with_extension_spec(s@, ext@));
        }
    }
    r
}

} // verus!
