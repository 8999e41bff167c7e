//! Verified line splitting and joining: the engine's stdout is broken
//! into lines (`str::lines` semantics: split at `\n`, drop a `\r` that
//! immediately precedes a `\n`, no final empty line for a trailing
//! newline) and a tail of the lines is rejoined with `\n`.

use vstd::prelude::*;
use vstd::string::*;

verus! {

/// Index of the first `\n` in `s`, or `s.len()` if there is none.
pub open spec fn line_end_of(s: Seq<char>) -> int
    decreases s.len(),
{
    if s.len() == 0 {
        0
    } else if s[0] == '\n' {
        0
    } else {
        1 + line_end_of(s.drop_first())
    }
}

pub proof fn lemma_line_end(s: Seq<char>)
    ensures
        0 <= line_end_of(s) <= s.len(),
        forall|k: int| 0 <= k < line_end_of(s) ==> s[k] != '\n',
        line_end_of(s) < s.len() ==> s[line_end_of(s)] == '\n',
    decreases s.len(),
{
    if s.len() > 0 && s[0] != '\n' {
        lemma_line_end(s.drop_first());
        assert forall|k: int| 0 <= k < line_end_of(s) implies s[k] != '\n' by {
            if k > 0 {
                assert(s.drop_first()[k - 1] != '\n');
                assert(s.drop_first()[k - 1] == s[k]);
            }
        }
        let e = line_end_of(s);
        if e < s.len() {
            assert(s.drop_first()[e - 1] == s[e]);
        }
    }
}

/// From the characterization, a position with a `\n` and none before it is
/// exactly `line_end_of`.
pub proof fn lemma_line_end_unique(s: Seq<char>, m: int)
    requires
        0 <= m <= s.len(),
        forall|k: int| 0 <= k < m ==> s[k] != '\n',
        m < s.len() ==> s[m] == '\n',
        m == s.len() ==> forall|k: int| 0 <= k < s.len() ==> s[k] != '\n',
    ensures
        line_end_of(s) == m,
{
    lemma_line_end(s);
    let e = line_end_of(s);
    if e < m {
        assert(s[e] == '\n');
    }
    if e > m {
        assert(m < s.len());
        assert(s[m] != '\n');
    }
}

/// A line with a trailing carriage return stripped.
pub open spec fn strip_cr(p: Seq<char>) -> Seq<char> {
    if p.len() > 0 && p.last() == '\r' {
        p.drop_last()
    } else {
        p
    }
}

/// The lines of `s`, as `str::lines` yields them.
pub open spec fn split_lines_spec(s: Seq<char>) -> Seq<Seq<char>>
    decreases s.len() via split_lines_spec_decreases
{
    if s.len() == 0 {
        Seq::empty()
    } else {
        let e = line_end_of(s);
        if e >= s.len() {
            seq![s]
        } else {
            seq![strip_cr(s.subrange(0, e))] + split_lines_spec(
                s.subrange(e + 1, s.len() as int),
            )
        }
    }
}

#[via_fn]
proof fn split_lines_spec_decreases(s: Seq<char>) {
    lemma_line_end(s);
}

/// Splitting distributes over a cut placed just after a newline.
pub proof fn lemma_split_at_newline(s: Seq<char>, k: int)
    requires
        0 <= k <= s.len(),
        k == 0 || s[k - 1] == '\n',
    ensures
        split_lines_spec(s) == split_lines_spec(s.subrange(0, k)) + split_lines_spec(
            s.subrange(k, s.len() as int),
        ),
    decreases s.len(),
{
    lemma_line_end(s);
    if k == 0 {
        assert(s.subrange(0, 0) =~= Seq::<char>::empty());
        assert(s.subrange(0, s.len() as int) =~= s);
        assert(split_lines_spec(s.subrange(0, 0)) + split_lines_spec(
            s.subrange(0, s.len() as int),
        ) =~= split_lines_spec(s));
    } else {
        let e = line_end_of(s);
        let a = s.subrange(0, k);
        let b = s.subrange(k, s.len() as int);
        // s has a newline at k - 1, so e <= k - 1 < s.len().
        assert(e <= k - 1) by {
            if e > k - 1 {
                assert(s[k - 1] != '\n');
            }
        }
        // The first line of s and of a agree.
        lemma_line_end(a);
        assert forall|j: int| 0 <= j < e implies a[j] != '\n' by {
            assert(a[j] == s[j]);
        }
        assert(a[e] == s[e]);
        lemma_line_end_unique(a, e);
        let s_rest = s.subrange(e + 1, s.len() as int);
        let a_rest = a.subrange(e + 1, a.len() as int);
        assert(a_rest =~= s_rest.subrange(0, k - e - 1));
        assert(b =~= s_rest.subrange(k - e - 1, s_rest.len() as int));
        if k - 1 == e {
            // The cut sits right after the first newline.
            assert(a_rest =~= Seq::<char>::empty());
            assert(b =~= s_rest);
            assert(split_lines_spec(a) == seq![strip_cr(a.subrange(0, e))]);
            assert(a.subrange(0, e) =~= s.subrange(0, e));
            assert(split_lines_spec(a) + split_lines_spec(b) =~= split_lines_spec(s));
        } else {
            assert(s_rest[k - e - 2] == s[k - 1]);
            lemma_split_at_newline(s_rest, k - e - 1);
            assert(a.subrange(0, e) =~= s.subrange(0, e));
            assert(split_lines_spec(a) == seq![strip_cr(a.subrange(0, e))] + split_lines_spec(
                a_rest,
            ));
            assert(split_lines_spec(a) + split_lines_spec(b) =~= split_lines_spec(s));
        }
    }
}

/// The views of a vector of owned lines.
pub open spec fn line_views(v: Seq<String>) -> Seq<Seq<char>> {
    v.map_values(|x: String| x@)
}

/// Splits a string into its lines, as `str::lines` does.
pub fn split_lines(s: &str) -> (r: Vec<String>)
    ensures
        line_views(r@) == split_lines_spec(s@),
{
    let len = s.unicode_len();
    let mut out: Vec<String> = Vec::new();
    let mut start: usize = 0;
    let mut i: usize = 0;
    proof {
        assert(s@.subrange(0, 0) =~= Seq::<char>::empty());
        assert(line_views(out@) =~= split_lines_spec(s@.subrange(0, 0)));
    }
    while i < len
        invariant
            start <= i <= len,
            len == s@.len(),
            start == 0 || s@[start - 1] == '\n',
            forall|j: int| start <= j < i ==> s@[j] != '\n',
            line_views(out@) == split_lines_spec(s@.subrange(0, start as int)),
        decreases len - i,
    {
        if s.get_char(i) == '\n' {
            let endx = if i > start && s.get_char(i - 1) == '\r' {
                i - 1
            } else {
                i
            };
            let piece = s.substring_char(start, endx);
            out.push(piece.to_owned());
            proof {
                let seg = s@.subrange(start as int, i + 1);
                assert(seg[i - start] == '\n');
                assert forall|k: int| 0 <= k < i - start implies seg[k] != '\n' by {
                    assert(seg[k] == s@[start + k]);
                }
                lemma_line_end_unique(seg, i - start);
                assert(seg.subrange(i - start + 1, seg.len() as int) =~= Seq::<char>::empty());
                assert(split_lines_spec(seg) == seq![strip_cr(seg.subrange(0, i - start))]
                    + split_lines_spec(Seq::<char>::empty()));
                assert(split_lines_spec(seg) =~= seq![strip_cr(seg.subrange(0, i - start))]);
                assert(seg.subrange(0, i - start) =~= s@.subrange(start as int, i as int));
                assert(piece@ =~= strip_cr(s@.subrange(start as int, i as int)));
                lemma_split_at_newline(s@.subrange(0, i + 1), start as int);
                assert(s@.subrange(0, i + 1).subrange(0, start as int) =~= s@.subrange(
                    0,
                    start as int,
                ));
                assert(s@.subrange(0, i + 1).subrange(start as int, i + 1) =~= seg);
                assert(line_views(out@) =~= split_lines_spec(s@.subrange(0, i + 1)));
            }
            start = i + 1;
        }
        i += 1;
    }
    if start < len {
        let piece = s.substring_char(start, len);
        out.push(piece.to_owned());
        proof {
            let seg = s@.subrange(start as int, len as int);
            lemma_line_end_unique(seg, seg.len() as int);
            assert(split_lines_spec(seg) == seq![seg]);
            lemma_split_at_newline(s@, start as int);
            assert(s@.subrange(0, len as int) =~= s@);
            assert(line_views(out@) =~= split_lines_spec(s@.subrange(0, start as int)) + seq![seg]);
            assert(line_views(out@) =~= split_lines_spec(s@));
        }
    } else {
        proof {
            if len == 0 {
                assert(s@.subrange(0, 0) =~= s@);
            } else {
                lemma_split_at_newline(s@, start as int);
                assert(s@.subrange(start as int, len as int) =~= Seq::<char>::empty());
                assert(s@.subrange(0, start as int) =~= s@);
            }
        }
    }
    out
}

/// The parts joined with the separator between consecutive parts.
pub open spec fn join_with(parts: Seq<Seq<char>>, sep: Seq<char>) -> Seq<char>
    decreases parts.len(),
{
    if parts.len() == 0 {
        Seq::empty()
    } else if parts.len() == 1 {
        parts[0]
    } else {
        parts[0] + sep + join_with(parts.drop_first(), sep)
    }
}

pub proof fn lemma_join_push(parts: Seq<Seq<char>>, sep: Seq<char>, x: Seq<char>)
    ensures
        join_with(parts.push(x), sep) == if parts.len() == 0 {
            x
        } else {
            join_with(parts, sep) + sep + x
        },
    decreases parts.len(),
{
    let p2 = parts.push(x);
    if parts.len() == 0 {
        assert(p2.len() == 1);
        assert(p2[0] == x);
    } else if parts.len() == 1 {
        assert(p2.drop_first() =~= seq![x]);
        assert(join_with(seq![x], sep) == x);
        assert(join_with(p2, sep) == p2[0] + sep + join_with(p2.drop_first(), sep));
        assert(join_with(p2, sep) == parts[0] + sep + x);
    } else {
        assert(p2.drop_first() =~= parts.drop_first().push(x));
        lemma_join_push(parts.drop_first(), sep, x);
        assert(join_with(p2, sep) == p2[0] + sep + join_with(parts.drop_first().push(x), sep));
        assert(join_with(parts, sep) + sep + x =~= parts[0] + sep + (join_with(
            parts.drop_first(),
            sep,
        ) + sep + x));
        assert(join_with(p2, sep) =~= join_with(parts, sep) + sep + x);
    }
}

/// Joins the lines from index `from` on with the separator, as the
/// extractor does when reassembling the JSON candidate from the stdout
/// lines.
pub fn join_from(v: &Vec<String>, from: usize, sep: &str) -> (r: String)
    requires
        from <= v@.len(),
    ensures
        r@ == join_with(line_views(v@).skip(from as int), sep@),
{
    let mut r = String::new();
    let mut i: usize = from;
    proof {
        assert(line_views(v@).skip(from as int).subrange(0, 0) =~= Seq::<Seq<char>>::empty());
    }
    while i < v.len()
        invariant
            from <= i <= v@.len(),
            r@ == join_with(line_views(v@).subrange(from as int, i as int), sep@),
        decreases v@.len() - i,
    {
        if i > from {
            r.append(sep);
        }
        r.append(v[i].as_str());
        proof {
            let pre = line_views(v@).subrange(from as int, i as int);
            let cur = line_views(v@).subrange(from as int, i + 1);
            assert(cur =~= pre.push(v@[i as int]@));
            lemma_join_push(pre, sep@, v@[i as int]@);
        }
        i += 1;
    }
    proof {
        assert(line_views(v@).subrange(from as int, v@.len() as int) =~= line_views(v@).skip(
            from as int,
        ));
    }
    r
}

} // verus!
