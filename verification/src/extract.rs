//! The output extractor: isolates the candidate JSON document from a
//! stdout stream that interleaves free-form log lines with a single JSON
//! payload, and scrapes file/issue counts from the log lines when the
//! candidate does not parse.

use vstd::prelude::*;
use vstd::string::*;
use crate::lines::{split_lines, split_lines_spec, join_from, join_with, line_views};
use crate::numbers::{scan_count, scanned_count, first_count_pos};
use crate::text::{contains_sub, has_substring};

verus! {

/// Unicode whitespace, as `char::is_whitespace` classifies it.
pub open spec fn is_space_char(c: char) -> bool {
    c == ' ' || c == '\t' || c == '\n' || c == '\u{0b}' || c == '\u{0c}' || c == '\r' || c
        == '\u{85}' || c == '\u{a0}' || c == '\u{1680}' || c == '\u{2000}' || c == '\u{2001}' || c
        == '\u{2002}' || c == '\u{2003}' || c == '\u{2004}' || c == '\u{2005}' || c == '\u{2006}'
        || c == '\u{2007}' || c == '\u{2008}' || c == '\u{2009}' || c == '\u{200a}' || c
        == '\u{2028}' || c == '\u{2029}' || c == '\u{202f}' || c == '\u{205f}' || c == '\u{3000}'
}

fn is_space(c: char) -> (r: bool)
    ensures
        r == is_space_char(c),
{
    c == ' ' || c == '\t' || c == '\n' || c == '\u{0b}' || c == '\u{0c}' || c == '\r' || c
        == '\u{85}' || c == '\u{a0}' || c == '\u{1680}' || c == '\u{2000}' || c == '\u{2001}' || c
        == '\u{2002}' || c == '\u{2003}' || c == '\u{2004}' || c == '\u{2005}' || c == '\u{2006}'
        || c == '\u{2007}' || c == '\u{2008}' || c == '\u{2009}' || c == '\u{200a}' || c
        == '\u{2028}' || c == '\u{2029}' || c == '\u{202f}' || c == '\u{205f}' || c == '\u{3000}'
}

/// The line's first non-whitespace character is an opening brace: what
/// trimming leading whitespace and testing for a leading `{` decides.
pub open spec fn starts_with_brace(line: Seq<char>) -> bool
    decreases line.len(),
{
    if line.len() == 0 {
        false
    } else if is_space_char(line[0]) {
        starts_with_brace(line.drop_first())
    } else {
        line[0] == '{'
    }
}

/// Tests whether the line's first non-whitespace character is `{`.
pub fn line_starts_with_brace(line: &str) -> (r: bool)
    ensures
        r == starts_with_brace(line@),
{
    let len = line.unicode_len();
    let mut i: usize = 0;
    proof {
        assert(line@.skip(0) =~= line@);
    }
    while i < len
        invariant
            i <= len,
            len == line@.len(),
            starts_with_brace(line@) == starts_with_brace(line@.skip(i as int)),
        decreases len - i,
    {
        let c = line.get_char(i);
        if is_space(c) {
            proof {
                assert(line@.skip(i as int).drop_first() =~= line@.skip(i + 1));
            }
        } else {
            proof {
                assert(line@.skip(i as int)[0] == line@[i as int]);
            }
            return c == '{';
        }
        i += 1;
    }
    proof {
        assert(line@.skip(len as int) =~= Seq::<char>::empty());
    }
    false
}

/// The index of the first line at or after `i` whose first non-whitespace
/// character is `{`.
pub open spec fn first_brace_line(ls: Seq<Seq<char>>, i: int) -> Option<int>
    decreases ls.len() - i,
{
    if i < 0 || i >= ls.len() {
        None
    } else if starts_with_brace(ls[i]) {
        Some(i)
    } else {
        first_brace_line(ls, i + 1)
    }
}

pub proof fn lemma_first_brace_line(ls: Seq<Seq<char>>, i: int)
    requires
        0 <= i <= ls.len(),
    ensures
        match first_brace_line(ls, i) {
            Some(p) => {
                &&& i <= p < ls.len()
                &&& starts_with_brace(ls[p])
                &&& forall|j: int| i <= j < p ==> !starts_with_brace(ls[j])
            },
            None => forall|j: int| i <= j < ls.len() ==> !starts_with_brace(ls[j]),
        },
    decreases ls.len() - i,
{
    if i < ls.len() && !starts_with_brace(ls[i]) {
        lemma_first_brace_line(ls, i + 1);
    }
}

/// Where the candidate JSON document starts among the lines: the first
/// line opening with `{`, or line 0 when no line does (the whole stdout
/// is then the candidate, which typically fails to parse).
pub open spec fn json_start_spec(ls: Seq<Seq<char>>) -> int {
    match first_brace_line(ls, 0) {
        Some(p) => p,
        None => 0,
    }
}

/// Finds the line index where the candidate JSON document starts.
pub fn json_start_index(ls: &Vec<String>) -> (r: usize)
    ensures
        r as int == json_start_spec(line_views(ls@)),
        r <= ls@.len(),
{
    let mut i: usize = 0;
    while i < ls.len()
        invariant
            i <= ls@.len(),
            forall|j: int| 0 <= j < i ==> !starts_with_brace(line_views(ls@)[j]),
        decreases ls@.len() - i,
    {
        if line_starts_with_brace(ls[i].as_str()) {
            proof {
                let views = line_views(ls@);
                assert(views[i as int] == ls@[i as int]@);
                lemma_first_brace_line(views, 0);
                match first_brace_line(views, 0) {
                    Some(p) => {
                        if p < i {
                            assert(!starts_with_brace(views[p]));
                        }
                        if p > i {
                            assert(!starts_with_brace(views[i as int]));
                        }
                    },
                    None => {
                        assert(!starts_with_brace(views[i as int]));
                    },
                }
            }
            return i;
        }
        proof {
            assert(line_views(ls@)[i as int] == ls@[i as int]@);
        }
        i += 1;
    }
    proof {
        let views = line_views(ls@);
        lemma_first_brace_line(views, 0);
        match first_brace_line(views, 0) {
            Some(p) => {
                assert(!starts_with_brace(views[p]));
            },
            None => {},
        }
    }
    0
}

/// The candidate JSON document of a stdout stream: its lines from the
/// first `{`-opening line on, rejoined with newlines.
pub open spec fn json_candidate_spec(s: Seq<char>) -> Seq<char> {
    let ls = split_lines_spec(s);
    join_with(ls.skip(json_start_spec(ls)), "\n"@)
}

/// Extracts the candidate JSON document from raw stdout text.
pub fn extract_json_candidate(stdout: &str) -> (r: String)
    ensures
        r@ == json_candidate_spec(stdout@),
{
    let ls = split_lines(stdout);
    let start = json_start_index(&ls);
    join_from(&ls, start, "\n")
}

/// The file count scraped from the log lines: on every line containing
/// `Found` and `files to analyze`, the leftmost digit run immediately
/// followed by ` files` (when there is one) replaces the count gathered
/// so far; lines scanned top to bottom, starting from 0.
pub open spec fn fallback_file_count(ls: Seq<Seq<char>>) -> int
    decreases ls.len(),
{
    if ls.len() == 0 {
        0
    } else {
        let l = ls.last();
        if has_substring(l, "Found"@) && has_substring(l, "files to analyze"@) && first_count_pos(
            l,
            " files"@,
            0,
        ) is Some {
            scanned_count(l, " files"@)
        } else {
            fallback_file_count(ls.drop_last())
        }
    }
}

/// The issue count scraped from the log lines, in the same way, from
/// lines containing `Summary:` and `issues`, with the ` issues` marker.
pub open spec fn fallback_issue_count(ls: Seq<Seq<char>>) -> int
    decreases ls.len(),
{
    if ls.len() == 0 {
        0
    } else {
        let l = ls.last();
        if has_substring(l, "Summary:"@) && has_substring(l, "issues"@) && first_count_pos(
            l,
            " issues"@,
            0,
        ) is Some {
            scanned_count(l, " issues"@)
        } else {
            fallback_issue_count(ls.drop_last())
        }
    }
}

/// Scrapes the best-effort file and issue counts from the stdout lines,
/// for the fallback payload when the candidate document does not parse.
pub fn fallback_counts(ls: &Vec<String>) -> (r: (u32, u32))
    ensures
        r.0 as int == fallback_file_count(line_views(ls@)),
        r.1 as int == fallback_issue_count(line_views(ls@)),
{
    let mut file_count: u32 = 0;
    let mut issue_count: u32 = 0;
    let mut i: usize = 0;
    proof {
        assert(line_views(ls@).take(0) =~= Seq::<Seq<char>>::empty());
    }
    while i < ls.len()
        invariant
            i <= ls@.len(),
            file_count as int == fallback_file_count(line_views(ls@).take(i as int)),
            issue_count as int == fallback_issue_count(line_views(ls@).take(i as int)),
        decreases ls@.len() - i,
    {
        proof {
            assert(line_views(ls@).take(i + 1).drop_last() =~= line_views(ls@).take(i as int));
            assert(line_views(ls@).take(i + 1).last() == ls@[i as int]@);
        }
        let line = ls[i].as_str();
        if contains_sub(line, "Found") && contains_sub(line, "files to analyze") {
            match scan_count(line, " files") {
                Some(v) => {
                    file_count = v;
                },
                None => {},
            }
        }
        if contains_sub(line, "Summary:") && contains_sub(line, "issues") {
            match scan_count(line, " issues") {
                Some(v) => {
                    issue_count = v;
                },
                None => {},
            }
        }
        i += 1;
    }
    proof {
        assert(line_views(ls@).take(ls@.len() as int) =~= line_views(ls@));
    }
    (file_count, issue_count)
}

/// A non-empty string splits into at least one line.
proof fn lemma_split_nonempty(s: Seq<char>)
    requires
        s.len() > 0,
    ensures
        split_lines_spec(s).len() >= 1,
{
    crate::lines::lemma_line_end(s);
}

/// Rejoining the split lines with newlines recovers the original text,
/// provided it holds no carriage return and does not end with a newline
/// (both would be normalized away by the split).
pub proof fn lemma_join_split_identity(s: Seq<char>)
    requires
        forall|k: int| 0 <= k < s.len() ==> s[k] != '\r',
        s.len() > 0 ==> s.last() != '\n',
    ensures
        join_with(split_lines_spec(s), "\n"@) == s,
    decreases s.len(),
{
    reveal_strlit("\n");
    crate::lines::lemma_line_end(s);
    if s.len() == 0 {
        assert(join_with(split_lines_spec(s), "\n"@) =~= s);
    } else {
        let e = crate::lines::line_end_of(s);
        if e >= s.len() {
            assert(split_lines_spec(s) == seq![s]);
            assert(join_with(seq![s], "\n"@) == s);
        } else {
            let line = s.subrange(0, e);
            let rest = s.subrange(e + 1, s.len() as int);
            assert(rest.len() > 0) by {
                if e + 1 == s.len() {
                    assert(s.last() == s[e]);
                }
            }
            assert(rest.last() == s.last());
            assert(forall|k: int| 0 <= k < rest.len() ==> rest[k] == s[e + 1 + k]);
            lemma_join_split_identity(rest);
            lemma_split_nonempty(rest);
            assert(crate::lines::strip_cr(line) == line) by {
                if line.len() > 0 && line.last() == '\r' {
                    assert(s[e - 1] == '\r');
                }
            }
            let parts = split_lines_spec(s);
            assert(parts == seq![line] + split_lines_spec(rest));
            assert(parts.len() >= 2);
            assert(parts[0] == line);
            assert(parts.drop_first() =~= split_lines_spec(rest));
            assert(join_with(parts, "\n"@) == line + "\n"@ + rest);
            assert("\n"@ =~= seq!['\n']);
            assert(line + "\n"@ + rest =~= s);
        }
    }
}

/// Round trip of the extractor: for a stdout made of two fixed log lines
/// followed by a JSON document opening with `{` (holding no carriage
/// return and not ending in a newline), the extracted candidate is
/// exactly that document.
pub proof fn lemma_extract_round_trip(json: Seq<char>)
    requires
        json.len() > 0,
        json[0] == '{',
        forall|k: int| 0 <= k < json.len() ==> json[k] != '\r',
        json.last() != '\n',
    ensures
        json_candidate_spec("log line 1\nlog line 2\n"@ + json) == json,
{
    reveal_strlit("log line 1\nlog line 2\n");
    reveal_strlit("log line 1");
    reveal_strlit("log line 2");
    reveal_strlit("\n");
    let pre = "log line 1\nlog line 2\n"@;
    let s = pre + json;
    assert(pre.len() == 22);
    assert(s[21] == '\n');
    crate::lines::lemma_split_at_newline(s, 22);
    assert(s.subrange(0, 22) =~= pre);
    assert(s.subrange(22, s.len() as int) =~= json);
    // The prefix splits into exactly the two log lines.
    let l1 = "log line 1"@;
    let l2 = "log line 2"@;
    assert(l1.len() == 10 && l2.len() == 10);
    crate::lines::lemma_line_end_unique(pre, 10);
    assert(crate::lines::strip_cr(pre.subrange(0, 10)) =~= l1);
    let pre2 = pre.subrange(11, 22);
    crate::lines::lemma_line_end_unique(pre2, 10);
    assert(crate::lines::strip_cr(pre2.subrange(0, 10)) =~= l2);
    assert(pre2.subrange(11, 11) =~= Seq::<char>::empty());
    assert(split_lines_spec(Seq::<char>::empty()) =~= Seq::<Seq<char>>::empty());
    assert(split_lines_spec(pre2) == seq![crate::lines::strip_cr(pre2.subrange(0, 10))]
        + split_lines_spec(pre2.subrange(11, 11)));
    assert(split_lines_spec(pre2) =~= seq![l2]);
    assert(split_lines_spec(pre) == seq![crate::lines::strip_cr(pre.subrange(0, 10))]
        + split_lines_spec(pre.subrange(11, 22)));
    assert(split_lines_spec(pre) =~= seq![l1, l2]);
    let ls = split_lines_spec(s);
    let jls = split_lines_spec(json);
    assert(ls == seq![l1, l2] + jls);
    lemma_split_nonempty(json);
    // The first line of the json part opens with a brace; the log lines
    // do not.
    crate::lines::lemma_line_end(json);
    let je = crate::lines::line_end_of(json);
    assert(jls[0][0] == '{') by {
        if je >= json.len() {
            assert(jls[0] == json);
        } else {
            assert(je >= 1);
            let jline = json.subrange(0, je);
            assert(crate::lines::strip_cr(jline) == jline) by {
                if jline.len() > 0 && jline.last() == '\r' {
                    assert(json[je - 1] == '\r');
                }
            }
            assert(jls[0] == jline);
            assert(jline[0] == json[0]);
        }
    }
    assert(starts_with_brace(ls[2])) by {
        assert(ls[2] == jls[0]);
        assert(jls[0].len() > 0);
        assert(!is_space_char('{'));
    }
    assert(!starts_with_brace(l1)) by {
        assert(l1[0] == 'l');
        assert(!is_space_char('l'));
    }
    assert(!starts_with_brace(l2)) by {
        assert(l2[0] == 'l');
        assert(!is_space_char('l'));
    }
    lemma_first_brace_line(ls, 0);
    assert(first_brace_line(ls, 0) == Some(2int)) by {
        match first_brace_line(ls, 0) {
            Some(p) => {
                if p < 2 {
                    assert(!starts_with_brace(ls[p]));
                }
                if p > 2 {
                    assert(!starts_with_brace(ls[2]));
                }
            },
            None => {
                assert(!starts_with_brace(ls[2]));
            },
        }
    }
    assert(json_start_spec(ls) == 2);
    assert(ls.skip(2) =~= jls);
    lemma_join_split_identity(json);
}

} // verus!
