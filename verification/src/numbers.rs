//! Decimal rendering of integers and the digit-run scanner used by the
//! output extractor's log-scraping fallback.

use vstd::prelude::*;
use vstd::string::*;
use crate::text::has_substring_at;

verus! {

/// The decimal digit character for `d` in `0..=9`.
pub open spec fn dec_digit_char(d: int) -> char {
    if d == 0 {
        '0'
    } else if d == 1 {
        '1'
    } else if d == 2 {
        '2'
    } else if d == 3 {
        '3'
    } else if d == 4 {
        '4'
    } else if d == 5 {
        '5'
    } else if d == 6 {
        '6'
    } else if d == 7 {
        '7'
    } else if d == 8 {
        '8'
    } else {
        '9'
    }
}

/// Decimal representation of a non-negative integer, without leading zeros
/// (except for zero itself).
pub open spec fn dec_str(n: int) -> Seq<char>
    decreases n,
{
    if n < 10 {
        seq![dec_digit_char(n)]
    } else {
        dec_str(n / 10).push(dec_digit_char(n % 10))
    }
}

/// Decimal representation of a signed integer.
pub open spec fn dec_str_signed(n: int) -> Seq<char> {
    if n < 0 {
        seq!['-'] + dec_str(-n)
    } else {
        dec_str(n)
    }
}

fn digit_str(d: u64) -> (r: &'static str)
    requires
        d < 10,
    ensures
        r@ == seq![dec_digit_char(d as int)],
{
    proof {
        reveal_strlit("0");
        reveal_strlit("1");
        reveal_strlit("2");
        reveal_strlit("3");
        reveal_strlit("4");
        reveal_strlit("5");
        reveal_strlit("6");
        reveal_strlit("7");
        reveal_strlit("8");
        reveal_strlit("9");
    }
    let r = if d == 0 {
        "0"
    } else if d == 1 {
        "1"
    } else if d == 2 {
        "2"
    } else if d == 3 {
        "3"
    } else if d == 4 {
        "4"
    } else if d == 5 {
        "5"
    } else if d == 6 {
        "6"
    } else if d == 7 {
        "7"
    } else if d == 8 {
        "8"
    } else {
        "9"
    };
    proof {
        assert(r@ =~= seq![dec_digit_char(d as int)]);
    }
    r
}

/// Renders an unsigned integer in decimal.
pub fn u64_to_string(n: u64) -> (r: String)
    ensures
        r@ == dec_str(n as int),
    decreases n,
{
    if n < 10 {
        digit_str(n).to_owned()
    } else {
        let hi = u64_to_string(n / 10);
        let lo = digit_str(n % 10);
        let r = hi.concat(lo);
        proof {
            assert(r@ =~= dec_str(n as int));
        }
        r
    }
}

/// Renders a signed integer in decimal.
pub fn i64_to_string(n: i64) -> (r: String)
    ensures
        r@ == dec_str_signed(n as int),
{
    if n >= 0 {
        let r = u64_to_string(n as u64);
        r
    } else {
        let m: u64 = if n == i64::MIN {
            9223372036854775808u64
        } else {
            (-n) as u64
        };
        let digits = u64_to_string(m);
        let r = "-".to_owned().concat(digits.as_str());
        proof {
            reveal_strlit("-");
            assert(r@ =~= dec_str_signed(n as int));
        }
        r
    }
}

/// Whether `c` is an ASCII decimal digit.
pub open spec fn is_digit_char(c: char) -> bool {
    c == '0' || c == '1' || c == '2' || c == '3' || c == '4' || c == '5' || c == '6' || c == '7'
        || c == '8' || c == '9'
}

/// The numeric value of an ASCII digit (`0` for any other character).
pub open spec fn digit_char_val(c: char) -> int {
    if c == '1' {
        1
    } else if c == '2' {
        2
    } else if c == '3' {
        3
    } else if c == '4' {
        4
    } else if c == '5' {
        5
    } else if c == '6' {
        6
    } else if c == '7' {
        7
    } else if c == '8' {
        8
    } else if c == '9' {
        9
    } else {
        0
    }
}

fn is_digit(c: char) -> (r: bool)
    ensures
        r == is_digit_char(c),
{
    c == '0' || c == '1' || c == '2' || c == '3' || c == '4' || c == '5' || c == '6' || c == '7'
        || c == '8' || c == '9'
}

fn digit_val(c: char) -> (r: u64)
    ensures
        r as int == digit_char_val(c),
        r < 10,
{
    if c == '1' {
        1
    } else if c == '2' {
        2
    } else if c == '3' {
        3
    } else if c == '4' {
        4
    } else if c == '5' {
        5
    } else if c == '6' {
        6
    } else if c == '7' {
        7
    } else if c == '8' {
        8
    } else if c == '9' {
        9
    } else {
        0
    }
}

/// The value of a sequence of digit characters read as a decimal number.
pub open spec fn digits_value(s: Seq<char>) -> int
    decreases s.len(),
{
    if s.len() == 0 {
        0
    } else {
        digits_value(s.drop_last()) * 10 + digit_char_val(s.last())
    }
}

pub proof fn lemma_digits_value_nonneg(s: Seq<char>)
    ensures
        digits_value(s) >= 0,
    decreases s.len(),
{
    if s.len() > 0 {
        lemma_digits_value_nonneg(s.drop_last());
    }
}

/// The length of the run of digit characters at the front of `s`.
pub open spec fn digit_run_len(s: Seq<char>) -> int
    decreases s.len(),
{
    if s.len() == 0 {
        0
    } else if !is_digit_char(s[0]) {
        0
    } else {
        1 + digit_run_len(s.drop_first())
    }
}

pub proof fn lemma_digit_run_len(s: Seq<char>)
    ensures
        0 <= digit_run_len(s) <= s.len(),
        forall|k: int| 0 <= k < digit_run_len(s) ==> is_digit_char(s[k]),
        digit_run_len(s) < s.len() ==> !is_digit_char(s[digit_run_len(s)]),
    decreases s.len(),
{
    if s.len() > 0 && is_digit_char(s[0]) {
        lemma_digit_run_len(s.drop_first());
        assert forall|k: int| 0 <= k < digit_run_len(s) implies is_digit_char(s[k]) by {
            if k > 0 {
                assert(is_digit_char(s.drop_first()[k - 1]));
                assert(s.drop_first()[k - 1] == s[k]);
            }
        }
        let rl = digit_run_len(s);
        if rl < s.len() {
            assert(s.drop_first()[rl - 1] == s[rl]);
        }
    }
}

/// A count pattern matches at position `i` of `line`: a digit run starts
/// there and the marker text follows it immediately.  This mirrors how a
/// leftmost-first regular-expression search for digits followed by the
/// marker behaves.
pub open spec fn count_match_at(line: Seq<char>, marker: Seq<char>, i: int) -> bool {
    &&& 0 <= i < line.len()
    &&& is_digit_char(line[i])
    &&& has_substring_at(line, marker, i + digit_run_len(line.skip(i)))
}

/// The position of the leftmost count-pattern match at or after `i`.
pub open spec fn first_count_pos(line: Seq<char>, marker: Seq<char>, i: int) -> Option<int>
    decreases line.len() - i,
{
    if i < 0 || i >= line.len() {
        None
    } else if count_match_at(line, marker, i) {
        Some(i)
    } else {
        first_count_pos(line, marker, i + 1)
    }
}

pub proof fn lemma_first_count_pos(line: Seq<char>, marker: Seq<char>, i: int)
    requires
        0 <= i <= line.len(),
    ensures
        match first_count_pos(line, marker, i) {
            Some(p) => {
                &&& i <= p < line.len()
                &&& count_match_at(line, marker, p)
                &&& forall|j: int| i <= j < p ==> !count_match_at(line, marker, j)
            },
            None => forall|j: int| i <= j ==> !count_match_at(line, marker, j),
        },
    decreases line.len() - i,
{
    if i < line.len() && !count_match_at(line, marker, i) {
        lemma_first_count_pos(line, marker, i + 1);
    }
}

/// The extracted count for a line and marker: the digits of the leftmost
/// count-pattern match, read as a number, with values that overflow a
/// 32-bit signed integer falling back to 0 (a failed 32-bit parse of the
/// captured digits is treated as 0); 0 when nothing matches.
pub open spec fn scanned_count(line: Seq<char>, marker: Seq<char>) -> int {
    match first_count_pos(line, marker, 0) {
        None => 0,
        Some(p) => {
            let v = digits_value(line.subrange(p, p + digit_run_len(line.skip(p))));
            if v > 0x7fffffff {
                0
            } else {
                v
            }
        },
    }
}

/// Finds the end of the digit run starting at `i`.
fn run_end(line: &str, i: usize) -> (r: usize)
    requires
        i < line@.len(),
        line@.len() <= usize::MAX,
        is_digit_char(line@[i as int]),
    ensures
        i < r <= line@.len(),
        r == i + digit_run_len(line@.skip(i as int)),
        forall|k: int| i <= k < r ==> is_digit_char(line@[k]),
{
    let len = line.unicode_len();
    let mut j: usize = i;
    while j < len && is_digit(line.get_char(j))
        invariant
            i <= j <= len,
            len == line@.len(),
            forall|k: int| i <= k < j ==> is_digit_char(line@[k]),
        decreases len - j,
    {
        j += 1;
    }
    proof {
        lemma_digit_run_len(line@.skip(i as int));
        assert(forall|k: int| 0 <= k < line@.skip(i as int).len() ==> line@.skip(i as int)[k]
            == line@[i + k]);
        let rl = digit_run_len(line@.skip(i as int));
        if j - i < rl {
            assert(is_digit_char(line@.skip(i as int)[j - i]));
            assert(is_digit_char(line@[j as int]));
        }
        if j - i > rl {
            assert(is_digit_char(line@[i + rl]));
            assert(is_digit_char(line@.skip(i as int)[rl]));
        }
    }
    j
}

/// Reads the digits `line[i..j]` as a decimal number, mirroring a 32-bit
/// signed integer parse whose failure (overflow) yields 0.
fn read_digits(line: &str, i: usize, j: usize) -> (r: u32)
    requires
        i <= j <= line@.len(),
        line@.len() <= usize::MAX,
        forall|k: int| i <= k < j ==> is_digit_char(line@[k]),
    ensures
        r as int == ({
            let v = digits_value(line@.subrange(i as int, j as int));
            if v > 0x7fffffff {
                0
            } else {
                v
            }
        }),
{
    let mut acc: u64 = 0;
    let mut over: bool = false;
    let mut k: usize = i;
    while k < j
        invariant
            i <= k <= j <= line@.len(),
            line@.len() <= usize::MAX,
            forall|m: int| i <= m < j ==> is_digit_char(line@[m]),
            !over ==> acc as int == digits_value(line@.subrange(i as int, k as int)) && acc
                <= 0x7fffffff,
            over ==> digits_value(line@.subrange(i as int, k as int)) > 0x7fffffff,
        decreases j - k,
    {
        let d = digit_val(line.get_char(k));
        proof {
            let pre = line@.subrange(i as int, k as int);
            let cur = line@.subrange(i as int, k + 1);
            assert(cur.drop_last() =~= pre);
            assert(cur.last() == line@[k as int]);
            lemma_digits_value_nonneg(pre);
        }
        if over {
            proof {
                let pre = line@.subrange(i as int, k as int);
                let cur = line@.subrange(i as int, k + 1);
                assert(digits_value(cur) == digits_value(pre) * 10 + digit_char_val(
                    line@[k as int],
                ));
            }
        } else {
            let next = acc * 10 + d;
            if next > 0x7fffffff {
                over = true;
            } else {
                acc = next;
            }
        }
        k += 1;
    }
    if over {
        0
    } else {
        acc as u32
    }
}

/// Scans a line for the leftmost digit run immediately followed by the
/// marker and returns the digits' value: the textual count pattern of
/// the engine's log lines.
pub fn scan_count(line: &str, marker: &str) -> (r: Option<u32>)
    ensures
        match r {
            Some(v) => first_count_pos(line@, marker@, 0) is Some && v as int == scanned_count(
                line@,
                marker@,
            ),
            None => first_count_pos(line@, marker@, 0) is None,
        },
{
    let len = line.unicode_len();
    let mlen = marker.unicode_len();
    let mut i: usize = 0;
    while i < len
        invariant
            i <= len,
            len == line@.len(),
            mlen == marker@.len(),
            forall|j: int| 0 <= j < i ==> !count_match_at(line@, marker@, j),
        decreases len - i,
    {
        if is_digit(line.get_char(i)) {
            let e = run_end(line, i);
            if mlen <= len - e && crate::text::matches_at(line, marker, e) {
                let v = read_digits(line, i, e);
                proof {
                    lemma_first_count_pos(line@, marker@, 0);
                    assert(count_match_at(line@, marker@, i as int));
                    let p = first_count_pos(line@, marker@, 0);
                    assert(p == Some(i as int));
                    lemma_digit_run_len(line@.skip(i as int));
                }
                return Some(v);
            } else {
                proof {
                    if count_match_at(line@, marker@, i as int) {
                        assert(has_substring_at(line@, marker@, i + digit_run_len(line@.skip(
                            i as int,
                        ))));
                    }
                }
            }
        }
        i += 1;
    }
    proof {
        lemma_first_count_pos(line@, marker@, 0);
    }
    None
}

} // verus!
