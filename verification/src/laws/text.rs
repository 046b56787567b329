//! Laws of the operations on text.
use vstd::prelude::*;

use crate::gitlab::{failure_message, truncate};
use crate::outside::is_white_space;
use crate::text::{
    decimal, is_first, lemma_first_is_unique, line_text, occurs, occurs_at, split_once, trimmed,
    trimmed_end, trimmed_start,
};

verus! {

proof fn lemma_trimmed_start(s: Seq<char>) -> (n: int)
    ensures
        0 <= n <= s.len(),
        trimmed_start(s) == s.skip(n),
        forall|i: int| 0 <= i < n ==> is_white_space(#[trigger] s[i]),
        n < s.len() ==> !is_white_space(s[n]),
    decreases s.len(),
{
    if s.len() > 0 && is_white_space(s[0]) {
        let rest = s.skip(1);
        let m = lemma_trimmed_start(rest);
        assert(rest.skip(m) =~= s.skip(m + 1));
        assert forall|i: int| 0 <= i < m + 1 implies is_white_space(#[trigger] s[i]) by {
            if i > 0 {
                assert(s[i] == rest[i - 1]);
            }
        }
        m + 1
    } else {
        assert(s.skip(0) =~= s);
        0
    }
}

proof fn lemma_trimmed_end(s: Seq<char>) -> (n: int)
    ensures
        0 <= n <= s.len(),
        trimmed_end(s) == s.take(n),
        forall|i: int| n <= i < s.len() ==> is_white_space(#[trigger] s[i]),
        n > 0 ==> !is_white_space(s[n - 1]),
    decreases s.len(),
{
    if s.len() > 0 && is_white_space(s.last()) {
        let rest = s.drop_last();
        let m = lemma_trimmed_end(rest);
        assert(rest.take(m) =~= s.take(m));
        assert forall|i: int| m <= i < s.len() implies is_white_space(#[trigger] s[i]) by {
            if i < s.len() - 1 {
                assert(s[i] == rest[i]);
            }
        }
        m
    } else {
        assert(s.take(s.len() as int) =~= s);
        s.len() as int
    }
}

/// Trimming takes whitespace from both ends, nothing else, and leaves none there.
pub proof fn law_trimming(s: Seq<char>)
    ensures
        exists|a: Seq<char>, b: Seq<char>|
            s == #[trigger] (a + trimmed(s) + b) && (forall|i: int|
                0 <= i < a.len() ==> is_white_space(#[trigger] a[i])) && (forall|i: int|
                0 <= i < b.len() ==> is_white_space(#[trigger] b[i])),
        trimmed(s).len() > 0 ==> !is_white_space(trimmed(s)[0]) && !is_white_space(
            trimmed(s)[trimmed(s).len() - 1],
        ),
{
    let n = lemma_trimmed_start(s);
    let rest = s.skip(n);
    let m = lemma_trimmed_end(rest);
    let a = s.take(n);
    let b = rest.skip(m);
    assert(s =~= a + trimmed(s) + b);
    assert forall|i: int| 0 <= i < b.len() implies is_white_space(#[trigger] b[i]) by {
        assert(b[i] == rest[m + i]);
    }
    if trimmed(s).len() > 0 {
        assert(trimmed(s)[0] == s[n]);
    }
}

/// The text of a line is the line up to the characters of its ending.
pub proof fn law_line_text(line: Seq<char>)
    ensures
        line_text(line).is_prefix_of(line),
        forall|i: int|
            line_text(line).len() <= i < line.len() ==> #[trigger] line[i] == '\r' || line[i]
                == '\n',
        line_text(line).len() > 0 ==> line_text(line)[line_text(line).len() - 1] != '\r'
            && line_text(line)[line_text(line).len() - 1] != '\n',
    decreases line.len(),
{
    if line.len() > 0 && (line.last() == '\r' || line.last() == '\n') {
        let rest = line.drop_last();
        law_line_text(rest);
        let text = line_text(rest);
        assert(text =~= line.subrange(0, text.len() as int)) by {
            assert forall|i: int| 0 <= i < text.len() implies text[i] == line[i] by {
                assert(text[i] == rest.subrange(0, text.len() as int)[i]);
            }
        }
        assert forall|i: int| text.len() <= i < line.len() implies #[trigger] line[i] == '\r'
            || line[i] == '\n' by {
            if i < line.len() - 1 {
                assert(line[i] == rest[i]);
            }
        }
    } else {
        assert(line =~= line.subrange(0, line.len() as int));
    }
}

/// A text is split at the first place where a character stands, and only where it stands at all.
pub proof fn law_splitting(s: Seq<char>, c: char)
    ensures
        match split_once(s, c) {
            Some(parts) => s == parts.0 + seq![c] + parts.1 && !parts.0.contains(c),
            None => !s.contains(c),
        },
{
    if s.contains(c) {
        lemma_first_exists(s, c);
        let i = choose|i: int| is_first(s, c, i);
        assert(s =~= s.take(i) + seq![c] + s.skip(i + 1));
        if s.take(i).contains(c) {
            let j = choose|j: int| 0 <= j < s.take(i).len() && s.take(i)[j] == c;
            assert(s[j] == c);
        }
    }
}

proof fn lemma_first_exists(s: Seq<char>, c: char)
    requires
        s.contains(c),
    ensures
        exists|i: int| is_first(s, c, i),
    decreases s.len(),
{
    let k = choose|k: int| 0 <= k < s.len() && s[k] == c;
    let before = s.take(k);
    if before.contains(c) {
        lemma_first_exists(before, c);
        let i = choose|i: int| is_first(before, c, i);
        assert forall|j: int| 0 <= j < i implies s[j] != c by {
            assert(before[j] != c);
        }
        assert(is_first(s, c, i));
    } else {
        assert forall|j: int| 0 <= j < k implies s[j] != c by {
            assert(before[j] == s[j]);
            assert(before.contains(before[j]));
        }
        assert(is_first(s, c, k));
    }
}

/// However a text is cut at the first place of a character, it is cut there.
pub proof fn law_splitting_is_unique(x: Seq<char>, c: char, y: Seq<char>)
    requires
        !x.contains(c),
    ensures
        split_once(x + seq![c] + y, c) == Some((x, y)),
{
    let s = x + seq![c] + y;
    let n = x.len() as int;
    assert(is_first(s, c, n)) by {
        assert forall|j: int| 0 <= j < n implies s[j] != c by {
            assert(s[j] == x[j]);
            assert(x.contains(x[j]));
        }
    }
    assert(s[n] == c);
    let i = choose|i: int| is_first(s, c, i);
    lemma_first_is_unique(s, c, n, i);
    assert(s.take(n) =~= x);
    assert(s.skip(n + 1) =~= y);
}

/// A text holds another just where it is that text with something before and something after.
pub proof fn law_occurrence(s: Seq<char>, needle: Seq<char>)
    ensures
        occurs(s, needle) <==> exists|a: Seq<char>, b: Seq<char>| s == #[trigger] (a + needle + b),
{
    if occurs(s, needle) {
        let i = choose|i: int| occurs_at(s, needle, i);
        let a = s.take(i);
        let b = s.skip(i + needle.len());
        assert(s =~= a + needle + b) by {
            assert forall|j: int| 0 <= j < needle.len() implies s[i + j] == needle[j] by {
                assert(s.subrange(i, i + needle.len())[j] == s[i + j]);
            }
        }
    }
    if exists|a: Seq<char>, b: Seq<char>| s == #[trigger] (a + needle + b) {
        let (a, b) = choose|a: Seq<char>, b: Seq<char>| s == #[trigger] (a + needle + b);
        let i = a.len() as int;
        assert(s.subrange(i, i + needle.len()) =~= needle);
        assert(occurs_at(s, needle, i));
    }
}

/// A number is written digit by digit: one digit below ten, and one more at the end for each
/// factor of ten.
pub proof fn law_decimal(n: nat, d: nat)
    requires
        d < 10,
    ensures
        decimal(d) == seq![(('0' as u32 + d) as u32) as char],
        n > 0 ==> decimal(n * 10 + d) == decimal(n).push((('0' as u32 + d) as u32) as char),
{
    if n > 0 {
        assert((n * 10 + d) / 10 == n);
        assert((n * 10 + d) % 10 == d);
    }
}

/// A text is cut to its first 300 characters, and one that is no longer is left whole.
pub proof fn law_truncation(text: &str, cut: String)
    requires
        call_ensures(truncate, (text,), cut),
    ensures
        text@.len() <= 300 ==> cut@ == text@,
        text@.len() > 300 ==> cut@.len() == 300 && cut@ == text@.subrange(0, 300),
{
}

/// A failure is told by what was asked, the status and the body, which is given without the
/// whitespace around it.
pub proof fn law_failure_message(what: &str, status: &str, body: &str, message: String)
    requires
        call_ensures(failure_message, (what, status, body), message),
    ensures
        exists|a: Seq<char>, t: Seq<char>, b: Seq<char>|
            body@ == #[trigger] (a + t + b) && message@ == what@ + " "@ + status@ + ": "@ + t && (
            forall|i: int| 0 <= i < a.len() ==> is_white_space(#[trigger] a[i])) && (forall|i: int|
                0 <= i < b.len() ==> is_white_space(#[trigger] b[i])) && (t.len() > 0
                ==> !is_white_space(t[0]) && !is_white_space(t[t.len() - 1])),
{
    law_trimming(body@);
    let t = trimmed(body@);
    let (a, b) = choose|a: Seq<char>, b: Seq<char>|
        body@ == #[trigger] (a + t + b) && (forall|i: int|
            0 <= i < a.len() ==> is_white_space(#[trigger] a[i])) && (forall|i: int|
            0 <= i < b.len() ==> is_white_space(#[trigger] b[i]));
    assert(body@ == a + t + b);
}

} // verus!
