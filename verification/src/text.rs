//! Character-level text utilities: conversion of `&str` to character
//! vectors, substring search and occurrence counting.  Everything is
//! specified over `Seq<char>`.

use vstd::prelude::*;
use vstd::string::StrSliceExecFns;
use vstd::string::StringExecFns;

verus! {

/// The keyword `kw` occurs in `t` starting at position `i`.
pub open spec fn matches_at(t: Seq<char>, kw: Seq<char>, i: int) -> bool {
    0 <= i && i + kw.len() <= t.len() && t.subrange(i, i + kw.len() as int) == kw
}

/// The keyword `kw` occurs somewhere in `t`.
pub open spec fn contains_seq(t: Seq<char>, kw: Seq<char>) -> bool {
    exists|i: int| matches_at(t, kw, i)
}

/// Number of positions `>= i` at which `kw` occurs in `t`.
pub open spec fn count_matches_from(t: Seq<char>, kw: Seq<char>, i: int) -> nat
    decreases t.len() - i,
{
    if kw.len() == 0 || i < 0 || i + kw.len() > t.len() {
        0
    } else {
        (if matches_at(t, kw, i) {
            1nat
        } else {
            0nat
        }) + count_matches_from(t, kw, i + 1)
    }
}

/// Number of positions at which `kw` occurs in `t`.
pub open spec fn count_matches(t: Seq<char>, kw: Seq<char>) -> nat {
    count_matches_from(t, kw, 0)
}

proof fn lemma_count_bound(t: Seq<char>, kw: Seq<char>, i: int)
    requires
        kw.len() >= 1,
        0 <= i,
    ensures
        count_matches_from(t, kw, i) + i <= t.len() || count_matches_from(t, kw, i) == 0,
    decreases t.len() - i,
{
    if i + kw.len() > t.len() {
    } else {
        lemma_count_bound(t, kw, i + 1);
    }
}

/// Collects the characters of `s` into a vector.
pub fn to_chars(s: &str) -> (r: Vec<char>)
    ensures
        r@ == s@,
{
    let n = s.unicode_len();
    let mut r: Vec<char> = Vec::new();
    let mut i: usize = 0;
    while i < n
        invariant
            n == s@.len(),
            i <= n,
            r@ == s@.take(i as int),
        decreases n - i,
    {
        let c = s.get_char(i);
        r.push(c);
        proof {
            assert(s@.take(i + 1 as int) =~= s@.take(i as int).push(s@[i as int]));
        }
        i = i + 1;
    }
    proof {
        assert(r@ =~= s@);
    }
    r
}

/// Whether `kw` occurs in `t` at position `i`.
pub fn kw_matches_at(t: &Vec<char>, kw: &Vec<char>, i: usize) -> (b: bool)
    requires
        i + kw@.len() <= t@.len(),
    ensures
        b == matches_at(t@, kw@, i as int),
{
    let tlen = t.len();
    let m = kw.len();
    let mut j: usize = 0;
    while j < m
        invariant
            tlen == t@.len(),
            m == kw@.len(),
            i + m <= t@.len(),
            j <= m,
            forall|k: int| 0 <= k < j ==> t@[i + k] == kw@[k],
        decreases m - j,
    {
        if t[i + j] != kw[j] {
            proof {
                if matches_at(t@, kw@, i as int) {
                    assert(t@.subrange(i as int, i + m as int)[j as int] == kw@[j as int]);
                }
            }
            return false;
        }
        j = j + 1;
    }
    proof {
        assert(t@.subrange(i as int, i + m as int) =~= kw@);
    }
    true
}

/// Whether `kw` occurs anywhere in `t`.
pub fn contains_kw(t: &Vec<char>, kw: &Vec<char>) -> (b: bool)
    requires
        kw@.len() >= 1,
    ensures
        b == contains_seq(t@, kw@),
{
    let n = t.len();
    let m = kw.len();
    if m > n {
        return false;
    }
    let mut i: usize = 0;
    while i <= n - m
        invariant
            m == kw@.len(),
            n == t@.len(),
            1 <= m <= n,
            i <= n - m + 1,
            forall|j: int| 0 <= j < i ==> !matches_at(t@, kw@, j),
        decreases n - m - i + 1,
    {
        if kw_matches_at(t, kw, i) {
            return true;
        }
        i = i + 1;
    }
    false
}

/// Counts the occurrences of `kw` in `t`.
pub fn count_occurrences(t: &Vec<char>, kw: &Vec<char>) -> (n: usize)
    requires
        kw@.len() >= 1,
    ensures
        n == count_matches(t@, kw@),
{
    let len = t.len();
    let m = kw.len();
    proof {
        lemma_count_bound(t@, kw@, 0);
    }
    let mut cnt: usize = 0;
    let mut i: usize = 0;
    while i < len
        invariant
            m == kw@.len(),
            1 <= m,
            len == t@.len(),
            i <= len,
            count_matches(t@, kw@) <= len,
            count_matches(t@, kw@) == cnt + count_matches_from(t@, kw@, i as int),
        decreases len - i,
    {
        proof {
            assert(count_matches_from(t@, kw@, i as int) == (if matches_at(t@, kw@, i as int) {
                1nat
            } else {
                0nat
            }) + count_matches_from(t@, kw@, i + 1 as int));
        }
        if m <= len - i && kw_matches_at(t, kw, i) {
            cnt = cnt + 1;
        }
        i = i + 1;
    }
    cnt
}

/// Whether the keyword written as the literal `lit` occurs in `t`.
pub fn contains_lit(t: &Vec<char>, lit: &str) -> (b: bool)
    requires
        lit@.len() >= 1,
    ensures
        b == contains_seq(t@, lit@),
{
    let kw = to_chars(lit);
    contains_kw(t, &kw)
}

/// Counts the occurrences in `t` of the keyword written as the literal
/// `lit`.
pub fn count_lit(t: &Vec<char>, lit: &str) -> (n: usize)
    requires
        lit@.len() >= 1,
    ensures
        n == count_matches(t@, lit@),
{
    let kw = to_chars(lit);
    count_occurrences(t, &kw)
}

/// Whether two string slices hold the same characters.
pub fn str_eq(a: &str, b: &str) -> (r: bool)
    ensures
        r == (a@ == b@),
{
    let sa = String::from_str(a);
    let sb = String::from_str(b);
    sa == sb
}

/// `c` is an ASCII decimal digit.
pub open spec fn is_digit(c: char) -> bool {
    48 <= c as u32 && c as u32 <= 57
}

/// Numeric value of an ASCII decimal digit.
pub open spec fn digit_val(c: char) -> int {
    c as u32 - 48
}

/// Value of a sequence of decimal digits, most significant first.
pub open spec fn digits_value(s: Seq<char>) -> int
    decreases s.len(),
{
    if s.len() == 0 {
        0
    } else {
        digits_value(s.drop_last()) * 10 + digit_val(s.last())
    }
}

/// Ten to the `n`.
pub open spec fn pow10(n: nat) -> int
    decreases n,
{
    if n == 0 {
        1
    } else {
        10 * pow10((n - 1) as nat)
    }
}

pub proof fn lemma_digits_value_bound(s: Seq<char>)
    requires
        forall|i: int| 0 <= i < s.len() ==> is_digit(#[trigger] s[i]),
    ensures
        0 <= digits_value(s) < pow10(s.len()),
    decreases s.len(),
{
    if s.len() == 0 {
    } else {
        assert(forall|i: int| 0 <= i < s.drop_last().len() ==> is_digit(#[trigger] s.drop_last()[i]));
        lemma_digits_value_bound(s.drop_last());
        assert(is_digit(s.last()));
    }
}

/// Whether `c` is an ASCII decimal digit.
pub fn is_digit_char(c: char) -> (b: bool)
    ensures
        b == is_digit(c),
{
    let u = c as u32;
    48 <= u && u <= 57
}

/// The character that renders the decimal digit `d`.
pub open spec fn digit_char(d: int) -> char {
    if d == 0 {
        '0'
    } else if d == 1 {
        '1'
    } else if d == 2 {
        '2'
    } else if d == 3 {
        '3'
    } else if d == 4 {
        '4'
    } else if d == 5 {
        '5'
    } else if d == 6 {
        '6'
    } else if d == 7 {
        '7'
    } else if d == 8 {
        '8'
    } else {
        '9'
    }
}

/// Decimal rendering of a non-negative number, most significant digit first.
pub open spec fn dec_digits(n: int) -> Seq<char>
    decreases n,
{
    if n < 0 {
        Seq::empty()
    } else if n < 10 {
        seq![digit_char(n)]
    } else {
        dec_digits(n / 10).push(digit_char(n % 10))
    }
}

fn digit_str(d: u64) -> (r: &'static str)
    requires
        d < 10,
    ensures
        r@ =~= seq![digit_char(d as int)],
{
    if d == 0 {
        proof {
            reveal_strlit("0");
        }
        "0"
    } else if d == 1 {
        proof {
            reveal_strlit("1");
        }
        "1"
    } else if d == 2 {
        proof {
            reveal_strlit("2");
        }
        "2"
    } else if d == 3 {
        proof {
            reveal_strlit("3");
        }
        "3"
    } else if d == 4 {
        proof {
            reveal_strlit("4");
        }
        "4"
    } else if d == 5 {
        proof {
            reveal_strlit("5");
        }
        "5"
    } else if d == 6 {
        proof {
            reveal_strlit("6");
        }
        "6"
    } else if d == 7 {
        proof {
            reveal_strlit("7");
        }
        "7"
    } else if d == 8 {
        proof {
            reveal_strlit("8");
        }
        "8"
    } else {
        proof {
            reveal_strlit("9");
        }
        "9"
    }
}

/// Renders `n` in decimal.
pub fn u64_to_string(n: u64) -> (s: String)
    ensures
        s@ == dec_digits(n as int),
    decreases n,
{
    if n < 10 {
        String::from_str(digit_str(n))
    } else {
        let mut s = u64_to_string(n / 10);
        s.append(digit_str(n % 10));
        proof {
            assert(s@ =~= dec_digits(n as int / 10).push(digit_char(n as int % 10)));
        }
        s
    }
}

} // verus!
