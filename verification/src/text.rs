//! Lexing support: whitespace splitting, integer literals, text equality.
//!
//! Program input is a single string whose tokens are separated by whitespace;
//! empty lexemes from consecutive delimiters are skipped.
use vstd::prelude::*;
use vstd::string::StrSliceExecFns;

verus! {

/// The Unicode whitespace characters (the `White_Space` property).
pub open spec fn is_space_char(c: char) -> bool {
    c == ' ' || c == '\t' || c == '\n' || c == '\r' || c == '\u{b}' || c == '\u{c}' || c
        == '\u{85}' || c == '\u{a0}' || c == '\u{1680}' || c == '\u{2000}' || c == '\u{2001}' || c
        == '\u{2002}' || c == '\u{2003}' || c == '\u{2004}' || c == '\u{2005}' || c == '\u{2006}'
        || c == '\u{2007}' || c == '\u{2008}' || c == '\u{2009}' || c == '\u{200a}' || c
        == '\u{2028}' || c == '\u{2029}' || c == '\u{202f}' || c == '\u{205f}' || c == '\u{3000}'
}

pub fn is_space(c: char) -> (r: bool)
    ensures
        r == is_space_char(c),
{
    c == ' ' || c == '\t' || c == '\n' || c == '\r' || c == '\u{b}' || c == '\u{c}' || c
        == '\u{85}' || c == '\u{a0}' || c == '\u{1680}' || c == '\u{2000}' || c == '\u{2001}' || c
        == '\u{2002}' || c == '\u{2003}' || c == '\u{2004}' || c == '\u{2005}' || c == '\u{2006}'
        || c == '\u{2007}' || c == '\u{2008}' || c == '\u{2009}' || c == '\u{200a}' || c
        == '\u{2028}' || c == '\u{2029}' || c == '\u{202f}' || c == '\u{205f}' || c == '\u{3000}'
}

/// The end of the lexeme that starts at `i`: the first position at or after
/// `i` holding whitespace, or the end of the text.
pub open spec fn token_end(s: Seq<char>, i: int) -> int
    decreases s.len() - i,
{
    if 0 <= i < s.len() && !is_space_char(s[i]) {
        token_end(s, i + 1)
    } else {
        i
    }
}

pub proof fn lemma_token_end_bounds(s: Seq<char>, i: int)
    requires
        0 <= i <= s.len(),
    ensures
        i <= token_end(s, i) <= s.len(),
    decreases s.len() - i,
{
    if i < s.len() && !is_space_char(s[i]) {
        lemma_token_end_bounds(s, i + 1);
    }
}

/// The whitespace-separated lexemes of `s` from position `i` on, in order,
/// with empty lexemes skipped.
pub open spec fn split_from(s: Seq<char>, i: int) -> Seq<Seq<char>>
    decreases s.len() - i, s.len() - i + 1,
        when 0 <= i
    via split_from_decreases
{
    if !(0 <= i < s.len()) {
        Seq::empty()
    } else if is_space_char(s[i]) {
        split_from(s, i + 1)
    } else {
        seq![s.subrange(i, token_end(s, i))] + split_from(s, token_end(s, i))
    }
}

#[via_fn]
proof fn split_from_decreases(s: Seq<char>, i: int) {
    if 0 <= i < s.len() && !is_space_char(s[i]) {
        lemma_token_end_bounds(s, i);
        assert(token_end(s, i) == token_end(s, i + 1));
        lemma_token_end_bounds(s, i + 1);
    }
}

/// The lexemes of a whole source text.
pub open spec fn spec_lexemes(s: Seq<char>) -> Seq<Seq<char>> {
    split_from(s, 0)
}

/// Splits source text at whitespace, dropping the empty pieces.
pub fn split_whitespace_lexemes(s: &str) -> (r: Vec<String>)
    ensures
        r.deep_view() == spec_lexemes(s@),
{
    let n = s.unicode_len();
    let mut r: Vec<String> = Vec::new();
    let mut i: usize = 0;
    while i < n
        invariant
            n == s@.len(),
            0 <= i <= n,
            spec_lexemes(s@) == r.deep_view() + split_from(s@, i as int),
        decreases n - i,
    {
        let c = s.get_char(i);
        if is_space(c) {
            assert(split_from(s@, i as int) == split_from(s@, i + 1));
            i = i + 1;
        } else {
            let ghost start = i as int;
            let mut j: usize = i + 1;
            proof {
                lemma_token_end_bounds(s@, start);
                assert(token_end(s@, start) == token_end(s@, start + 1));
            }
            while j < n && !is_space(s.get_char(j))
                invariant
                    n == s@.len(),
                    0 <= start < j <= n,
                    token_end(s@, start) == token_end(s@, j as int),
                decreases n - j,
            {
                proof {
                    assert(token_end(s@, j as int) == token_end(s@, j + 1));
                }
                j = j + 1;
            }
            assert(token_end(s@, start) == j as int);
            let lex = s.substring_char(i, j).to_owned();
            let ghost old_r = r.deep_view();
            r.push(lex);
            proof {
                assert(r.deep_view() =~= old_r.push(s@.subrange(start, j as int)));
                assert(split_from(s@, start) == seq![s@.subrange(start, token_end(s@, start))]
                    + split_from(s@, token_end(s@, start)));
                assert(old_r + split_from(s@, start) =~= r.deep_view() + split_from(s@, j as int));
            }
            i = j;
        }
    }
    assert(split_from(s@, i as int) =~= Seq::<Seq<char>>::empty());
    assert(r.deep_view() + Seq::<Seq<char>>::empty() =~= r.deep_view());
    r
}

/// The decimal digits.
pub open spec fn is_digit_char(c: char) -> bool {
    c == '0' || c == '1' || c == '2' || c == '3' || c == '4' || c == '5' || c == '6' || c == '7'
        || c == '8' || c == '9'
}

pub open spec fn digit_val(c: char) -> int {
    if c == '0' {
        0
    } else if c == '1' {
        1
    } else if c == '2' {
        2
    } else if c == '3' {
        3
    } else if c == '4' {
        4
    } else if c == '5' {
        5
    } else if c == '6' {
        6
    } else if c == '7' {
        7
    } else if c == '8' {
        8
    } else {
        9
    }
}

pub fn digit_of(c: char) -> (r: Option<u64>)
    ensures
        r is Some <==> is_digit_char(c),
        r is Some ==> r->0 == digit_val(c),
{
    match c {
        '0' => Some(0),
        '1' => Some(1),
        '2' => Some(2),
        '3' => Some(3),
        '4' => Some(4),
        '5' => Some(5),
        '6' => Some(6),
        '7' => Some(7),
        '8' => Some(8),
        '9' => Some(9),
        _ => None,
    }
}

pub open spec fn all_digits(s: Seq<char>) -> bool {
    forall|k: int| 0 <= k < s.len() ==> is_digit_char(s[k])
}

/// The value of a digit string read in base ten.
pub open spec fn digits_val(s: Seq<char>) -> int
    decreases s.len(),
{
    if s.len() == 0 {
        0
    } else {
        digits_val(s.drop_last()) * 10 + digit_val(s.last())
    }
}

pub proof fn lemma_digits_val_nonneg(s: Seq<char>)
    ensures
        digits_val(s) >= 0,
    decreases s.len(),
{
    if s.len() > 0 {
        lemma_digits_val_nonneg(s.drop_last());
    }
}

/// A digit string is worth at least any of its prefixes.
pub proof fn lemma_digits_val_prefix(s: Seq<char>, k: int)
    requires
        0 <= k <= s.len(),
    ensures
        digits_val(s.take(k)) <= digits_val(s),
    decreases s.len() - k,
{
    if k == s.len() {
        assert(s.take(k) =~= s);
    } else {
        lemma_digits_val_prefix(s, k + 1);
        let p = s.take(k + 1);
        assert(p.drop_last() =~= s.take(k));
        lemma_digits_val_nonneg(s.take(k));
        assert(digits_val(p) == digits_val(s.take(k)) * 10 + digit_val(p.last()));
        assert(digit_val(p.last()) >= 0);
        assert(digits_val(s.take(k)) * 10 >= digits_val(s.take(k)));
    }
}

/// An integer literal: an optional sign followed by one or more decimal
/// digits, whose value is representable.
pub open spec fn spec_parse_int(s: Seq<char>) -> Option<i64> {
    if s.len() == 0 {
        None
    } else {
        let ds = if s[0] == '-' || s[0] == '+' {
            s.drop_first()
        } else {
            s
        };
        let neg = s[0] == '-';
        if ds.len() == 0 || !all_digits(ds) {
            None
        } else {
            let v = if neg {
                -digits_val(ds)
            } else {
                digits_val(ds)
            };
            if i64::MIN <= v <= i64::MAX {
                Some(v as i64)
            } else {
                None
            }
        }
    }
}

/// Reads an integer literal, or nothing if the text is not one.
pub fn parse_int(s: &str) -> (r: Option<i64>)
    ensures
        r == spec_parse_int(s@),
{
    let n = s.unicode_len();
    if n == 0 {
        return None;
    }
    let c0 = s.get_char(0);
    let neg = c0 == '-';
    let start: usize = if c0 == '-' || c0 == '+' {
        1
    } else {
        0
    };
    let ghost ds: Seq<char> = if start == 1 {
        s@.drop_first()
    } else {
        s@
    };
    if n == start {
        return None;
    }
    let mut mag: u128 = 0;
    let mut i: usize = start;
    while i < n
        invariant
            n == s@.len(),
            start <= i <= n,
            start < n,
            start == (if s@[0] == '-' || s@[0] == '+' {
                1usize
            } else {
                0usize
            }),
            neg == (s@[0] == '-'),
            start == 1 ==> ds =~= s@.drop_first(),
            start == 0 ==> ds =~= s@,
            ds.len() == n - start,
            forall|k: int| 0 <= k < ds.len() ==> ds[k] == s@[k + start],
            all_digits(ds.take(i - start)),
            mag == digits_val(ds.take(i - start)),
            mag <= 0x8000_0000_0000_0000u128,
        decreases n - i,
    {
        let c = s.get_char(i);
        match digit_of(c) {
            None => {
                assert(!is_digit_char(ds[i - start]));
                assert(!all_digits(ds));
                return None;
            },
            Some(d) => {
                let next: u128 = mag * 10 + d as u128;
                proof {
                    let p = ds.take(i - start + 1);
                    assert(p.drop_last() =~= ds.take(i - start));
                    assert(p.last() == ds[i - start]);
                    assert(next == digits_val(p));
                }
                if next > 0x8000_0000_0000_0000u128 {
                    proof {
                        lemma_digits_val_prefix(ds, i - start + 1);
                        assert(digits_val(ds.take(i - start + 1)) == next);
                        assert(digits_val(ds) >= next);
                        assert(digits_val(ds) > 0x8000_0000_0000_0000);
                    }
                    return None;
                }
                mag = next;
                i = i + 1;
            },
        }
    }
    assert(ds.take(i - start) =~= ds);
    if neg {
        if mag == 0x8000_0000_0000_0000u128 {
            Some(i64::MIN)
        } else {
            Some(-(mag as i64))
        }
    } else {
        if mag == 0x8000_0000_0000_0000u128 {
            None
        } else {
            Some(mag as i64)
        }
    }
}

/// Character-for-character text equality.
pub fn eq_str(a: &str, b: &str) -> (r: bool)
    ensures
        r == (a@ == b@),
{
    let n = a.unicode_len();
    if n != b.unicode_len() {
        return false;
    }
    let mut i: usize = 0;
    while i < n
        invariant
            n == a@.len() == b@.len(),
            0 <= i <= n,
            forall|k: int| 0 <= k < i ==> a@[k] == b@[k],
        decreases n - i,
    {
        if a.get_char(i) != b.get_char(i) {
            return false;
        }
        i = i + 1;
    }
    proof {
        assert(a@ =~= b@);
    }
    true
}

} // verus!
