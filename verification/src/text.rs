//! Text as sequences of characters: splitting, trimming, searching, numbers.
use vstd::prelude::*;
use vstd::utf8::*;

use crate::outside::is_white_space;

verus! {

/// What is left of `s` without its leading whitespace.
pub open spec fn trimmed_start(s: Seq<char>) -> Seq<char>
    decreases s.len(),
{
    if s.len() > 0 && is_white_space(s[0]) {
        trimmed_start(s.skip(1))
    } else {
        s
    }
}

/// What is left of `s` without its trailing whitespace.
pub open spec fn trimmed_end(s: Seq<char>) -> Seq<char>
    decreases s.len(),
{
    if s.len() > 0 && is_white_space(s.last()) {
        trimmed_end(s.drop_last())
    } else {
        s
    }
}

/// What is left of `s` without the whitespace at both ends.
pub open spec fn trimmed(s: Seq<char>) -> Seq<char> {
    trimmed_end(trimmed_start(s))
}

/// Whether `c` belongs to a line ending.
pub open spec fn is_line_end(c: char) -> bool {
    c == '\r' || c == '\n'
}

/// What is left of a line without its line ending.
pub open spec fn line_text(s: Seq<char>) -> Seq<char>
    decreases s.len(),
{
    if s.len() > 0 && is_line_end(s.last()) {
        line_text(s.drop_last())
    } else {
        s
    }
}

/// `s` without any of the characters of line endings.
pub open spec fn without_line_ends(s: Seq<char>) -> Seq<char> {
    s.filter(|c: char| !is_line_end(c))
}

/// Whether `needle` stands in `s` from position `i` on.
pub open spec fn occurs_at(s: Seq<char>, needle: Seq<char>, i: int) -> bool {
    0 <= i && i + needle.len() <= s.len() && s.subrange(i, i + needle.len()) == needle
}

/// Whether `needle` stands anywhere in `s`.
pub open spec fn occurs(s: Seq<char>, needle: Seq<char>) -> bool {
    exists|i: int| occurs_at(s, needle, i)
}

/// Whether `i` is the first position of `c` in `s`.
pub open spec fn is_first(s: Seq<char>, c: char, i: int) -> bool {
    0 <= i < s.len() && s[i] == c && forall|j: int| 0 <= j < i ==> s[j] != c
}

/// The parts of `s` before and after the first `c`, if there is one.
pub open spec fn split_once(s: Seq<char>, c: char) -> Option<(Seq<char>, Seq<char>)> {
    if s.contains(c) {
        let i = choose|i: int| is_first(s, c, i);
        Some((s.take(i), s.skip(i + 1)))
    } else {
        None
    }
}

/// The part of `s` before the first `c`, or all of it.
pub open spec fn up_to(s: Seq<char>, c: char) -> Seq<char> {
    match split_once(s, c) {
        Some(parts) => parts.0,
        None => s,
    }
}

/// The first `n` characters of `s`, or all of it when it is shorter.
pub open spec fn prefix(s: Seq<char>, n: int) -> Seq<char> {
    if s.len() <= n {
        s
    } else {
        s.take(n)
    }
}

/// The decimal digit for `d`.
pub open spec fn digit(d: nat) -> char {
    (('0' as u32 + d) as u32) as char
}

/// `n` in decimal, without leading zeros.
pub open spec fn decimal(n: nat) -> Seq<char>
    decreases n,
{
    if n < 10 {
        seq![digit(n)]
    } else {
        decimal(n / 10).push(digit(n % 10))
    }
}

/// Whether `c` is a decimal digit.
pub open spec fn is_digit(c: char) -> bool {
    '0' <= c <= '9'
}

/// Whether `s` consists of decimal digits, at least one.
pub open spec fn all_digits(s: Seq<char>) -> bool {
    s.len() > 0 && forall|i: int| 0 <= i < s.len() ==> is_digit(#[trigger] s[i])
}

/// The number that a sequence of decimal digits stands for.
pub open spec fn digits_value(s: Seq<char>) -> nat
    decreases s.len(),
{
    if s.len() == 0 {
        0
    } else {
        digits_value(s.drop_last()) * 10 + (s.last() as nat - '0' as nat) as nat
    }
}

/// `s` without one leading plus sign.
pub open spec fn unsigned_part(s: Seq<char>) -> Seq<char> {
    if s.len() > 0 && s[0] == '+' {
        s.skip(1)
    } else {
        s
    }
}

/// The number that `s` stands for: an optional plus sign and decimal digits, if it fits a `usize`.
pub open spec fn parsed_number(s: Seq<char>) -> Option<usize> {
    let digits = unsigned_part(s);
    if all_digits(digits) && digits_value(digits) <= usize::MAX {
        Some(digits_value(digits) as usize)
    } else {
        None
    }
}

/// The characters of `s`.
pub(crate) fn chars_of(s: &str) -> (v: Vec<char>)
    ensures
        v@ == s@,
{
    let mut v: Vec<char> = Vec::new();
    for c in it: s.chars()
        invariant
            it.seq() == s@,
            v@ == s@.take(it.index() as int),
    {
        proof {
            assert(s@.take(it.index() as int).push(c) =~= s@.take(it.index() + 1));
        }
        v.push(c);
    }
    assert(s@.take(s@.len() as int) =~= s@);
    v
}

/// The characters of `v` from position `from` up to `to`, as a string.
pub(crate) fn string_of(v: &Vec<char>, from: usize, to: usize) -> (s: String)
    requires
        from <= to <= v@.len(),
    ensures
        s@ == v@.subrange(from as int, to as int),
{
    let mut s = String::new();
    let mut i: usize = from;
    while i < to
        invariant
            from <= i <= to <= v@.len(),
            s@ == v@.subrange(from as int, i as int),
        decreases to - i,
    {
        assert(v@.subrange(from as int, i as int).push(v@[i as int]) =~= v@.subrange(
            from as int,
            i + 1,
        ));
        s.push(v[i]);
        i = i + 1;
    }
    s
}

/// Whether two texts hold the same characters.
pub(crate) fn same_text(a: &str, b: &str) -> (same: bool)
    ensures
        same == (a@ == b@),
{
    let x = a.as_bytes();
    let y = b.as_bytes();
    proof {
        encode_utf8_decode_utf8(a@);
        encode_utf8_decode_utf8(b@);
    }
    if x.len() != y.len() {
        return false;
    }
    let mut i: usize = 0;
    while i < x.len()
        invariant
            i <= x@.len() == y@.len(),
            x@ == encode_utf8(a@),
            y@ == encode_utf8(b@),
            forall|j: int| 0 <= j < i ==> x@[j] == y@[j],
        decreases x@.len() - i,
    {
        if x[i] != y[i] {
            return false;
        }
        i = i + 1;
    }
    assert(x@ =~= y@);
    true
}

/// A new string with the characters of `s`.
pub(crate) fn owned(s: &str) -> (r: String)
    ensures
        r@ == s@,
{
    s.to_owned()
}

/// The two texts, one after the other.
pub(crate) fn joined(a: &str, b: &str) -> (r: String)
    ensures
        r@ == a@ + b@,
{
    let mut r = a.to_owned();
    r.append(b);
    r
}

/// `s` without the whitespace at both ends.
pub(crate) fn trim(s: &str) -> (r: String)
    ensures
        r@ == trimmed(s@),
{
    let v = chars_of(s);
    let mut from: usize = 0;
    assert(v@.skip(0) =~= v@);
    while from < v.len() && v[from].is_whitespace()
        invariant
            from <= v@.len(),
            v@ == s@,
            trimmed_start(s@) == trimmed_start(v@.skip(from as int)),
        decreases v@.len() - from,
    {
        assert(v@.skip(from as int).skip(1) =~= v@.skip(from + 1));
        from = from + 1;
    }
    assert(trimmed_start(s@) == v@.skip(from as int));
    let mut to: usize = v.len();
    assert(v@.subrange(from as int, to as int) =~= v@.skip(from as int));
    while to > from && v[to - 1].is_whitespace()
        invariant
            from <= to <= v@.len(),
            trimmed(s@) == trimmed_end(v@.subrange(from as int, to as int)),
        decreases to,
    {
        assert(v@.subrange(from as int, to as int).drop_last() =~= v@.subrange(
            from as int,
            to - 1,
        ));
        to = to - 1;
    }
    string_of(&v, from, to)
}

/// The text of a line, without its line ending.
pub(crate) fn trim_line_end(s: &str) -> (r: String)
    ensures
        r@ == line_text(s@),
{
    let v = chars_of(s);
    let mut to: usize = v.len();
    assert(v@.subrange(0, to as int) =~= v@);
    while to > 0 && (v[to - 1] == '\r' || v[to - 1] == '\n')
        invariant
            to <= v@.len(),
            line_text(s@) == line_text(v@.subrange(0, to as int)),
        decreases to,
    {
        assert(v@.subrange(0, to as int).drop_last() =~= v@.subrange(0, to - 1));
        to = to - 1;
    }
    string_of(&v, 0, to)
}

/// `s` without any of the characters of line endings.
pub(crate) fn strip_line_ends(s: &str) -> (r: String)
    ensures
        r@ == without_line_ends(s@),
{
    let mut r = String::new();
    let ghost keep = |c: char| !is_line_end(c);
    proof {
        reveal(Seq::filter);
    }
    for c in it: s.chars()
        invariant
            it.seq() == s@,
            keep == (|c: char| !is_line_end(c)),
            r@ == s@.take(it.index() as int).filter(keep),
    {
        proof {
            reveal(Seq::filter);
            let next = s@.take(it.index() + 1);
            assert(next.drop_last() =~= s@.take(it.index() as int));
            assert(next.last() == c);
        }
        if c != '\r' && c != '\n' {
            r.push(c);
        }
    }
    assert(s@.take(s@.len() as int) =~= s@);
    r
}

/// Whether the characters of `needle` stand in `v` from position `at` on.
fn stands_at(v: &Vec<char>, needle: &Vec<char>, at: usize) -> (found: bool)
    requires
        at + needle.len() <= v.len(),
    ensures
        found == occurs_at(v@, needle@, at as int),
{
    let mut k: usize = 0;
    while k < needle.len()
        invariant
            k <= needle@.len(),
            at + needle.len() <= v.len(),
            forall|j: int| 0 <= j < k ==> v@[at + j] == needle@[j],
        decreases needle@.len() - k,
    {
        if v[at + k] != needle[k] {
            assert(v@.subrange(at as int, at + needle@.len())[k as int] != needle@[k as int]);
            return false;
        }
        k = k + 1;
    }
    assert(v@.subrange(at as int, at + needle@.len()) =~= needle@);
    true
}

/// Whether `needle` stands anywhere in `s`.
pub(crate) fn contains(s: &str, needle: &str) -> (found: bool)
    ensures
        found == occurs(s@, needle@),
{
    let v = chars_of(s);
    let n = chars_of(needle);
    if n.len() > v.len() {
        return false;
    }
    let last: usize = v.len() - n.len();
    let mut i: usize = 0;
    while i <= last
        invariant
            v@ == s@,
            n@ == needle@,
            i <= last + 1,
            last + n@.len() == v@.len(),
            forall|j: int| 0 <= j < i ==> !occurs_at(s@, needle@, j),
        decreases last + 1 - i,
    {
        if stands_at(&v, &n, i) {
            return true;
        }
        if i == last {
            return false;
        }
        i = i + 1;
    }
    false
}

pub(crate) proof fn lemma_first_is_unique(s: Seq<char>, c: char, i: int, k: int)
    requires
        is_first(s, c, i),
        is_first(s, c, k),
    ensures
        i == k,
{
    if i < k {
        assert(s[i] != c);
    }
    if k < i {
        assert(s[k] != c);
    }
}

/// The parts of `s` before and after the first `c`, if there is one.
pub(crate) fn split_at_first(s: &str, c: char) -> (r: Option<(String, String)>)
    ensures
        match r {
            Some(parts) => split_once(s@, c) == Some((parts.0@, parts.1@)),
            None => split_once(s@, c) is None,
        },
{
    let v = chars_of(s);
    let mut i: usize = 0;
    while i < v.len()
        invariant
            v@ == s@,
            i <= v@.len(),
            forall|j: int| 0 <= j < i ==> v@[j] != c,
        decreases v@.len() - i,
    {
        if v[i] == c {
            let before = string_of(&v, 0, i);
            let after = string_of(&v, i + 1, v.len());
            proof {
                assert(is_first(s@, c, i as int));
                let k = choose|k: int| is_first(s@, c, k);
                lemma_first_is_unique(s@, c, i as int, k);
                assert(before@ =~= s@.take(i as int));
                assert(after@ =~= s@.skip(i + 1));
            }
            return Some((before, after));
        }
        i = i + 1;
    }
    None
}

/// The first `n` characters of `s`, or all of it when it is shorter.
pub(crate) fn take_chars(s: &str, n: usize) -> (r: String)
    ensures
        r@ == prefix(s@, n as int),
{
    let v = chars_of(s);
    if v.len() <= n {
        assert(v@.subrange(0, v@.len() as int) =~= v@);
        string_of(&v, 0, v.len())
    } else {
        assert(v@.subrange(0, n as int) =~= v@.take(n as int));
        string_of(&v, 0, n)
    }
}

fn digit_char(d: u64) -> (c: char)
    requires
        d < 10,
    ensures
        c == digit(d as nat),
{
    (48u8 + d as u8) as char
}

/// `n` in decimal.
pub(crate) fn decimal_of(n: u64) -> (s: String)
    ensures
        s@ == decimal(n as nat),
    decreases n,
{
    if n < 10 {
        let mut s = String::new();
        s.push(digit_char(n));
        assert(s@ =~= seq![digit(n as nat)]);
        s
    } else {
        let mut s = decimal_of(n / 10);
        s.push(digit_char(n % 10));
        s
    }
}

proof fn lemma_digits_value_grows(s: Seq<char>, n: int)
    requires
        all_digits(s),
        0 <= n <= s.len(),
    ensures
        digits_value(s.take(n)) <= digits_value(s),
    decreases s.len() - n,
{
    if n < s.len() {
        lemma_digits_value_grows(s, n + 1);
        assert(s.take(n + 1).drop_last() =~= s.take(n));
    } else {
        assert(s.take(n) =~= s);
    }
}

/// The number that `s` stands for, if it is one that fits.
pub(crate) fn parse_number(s: &str) -> (r: Option<usize>)
    ensures
        r == parsed_number(s@),
{
    let v = chars_of(s);
    let from: usize = if v.len() > 0 && v[0] == '+' { 1 } else { 0 };
    let ghost digits = unsigned_part(s@);
    assert(digits =~= v@.skip(from as int));
    if from == v.len() {
        return None;
    }
    let mut n: usize = 0;
    let mut i: usize = from;
    assert(digits.take(0) =~= Seq::<char>::empty());
    while i < v.len()
        invariant
            from <= i <= v@.len(),
            digits == v@.skip(from as int),
            digits == unsigned_part(s@),
            n == digits_value(digits.take(i - from)),
            forall|j: int| 0 <= j < i - from ==> is_digit(#[trigger] digits[j]),
        decreases v@.len() - i,
    {
        let c = v[i];
        assert(c == digits[i - from]);
        if c < '0' || c > '9' {
            return None;
        }
        let d: usize = (c as u32 - 48) as usize;
        proof {
            let next = digits.take(i - from + 1);
            assert(next.drop_last() =~= digits.take(i - from));
            assert(next.last() == c);
            assert(digits_value(next) == n * 10 + d);
            if all_digits(digits) {
                lemma_digits_value_grows(digits, i - from + 1);
            }
        }
        match n.checked_mul(10) {
            Some(tens) => match tens.checked_add(d) {
                Some(sum) => {
                    n = sum;
                },
                None => {
                    return None;
                },
            },
            None => {
                return None;
            },
        }
        i = i + 1;
    }
    assert(digits.take(digits.len() as int) =~= digits);
    Some(n)
}

} // verus!
