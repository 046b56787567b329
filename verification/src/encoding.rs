//! What percent-encoding keeps: texts stay apart, and each stays within its part of an address.
use vstd::prelude::*;
use vstd::utf8::*;

use crate::outside::{is_unreserved, percent_byte, percent_bytes, percent_encoded};

verus! {

/// Whether a character may stand in an encoded part of an address: none of those that separate
/// the parts of an address.
pub open spec fn is_segment_char(c: char) -> bool {
    c == '%' || (0 <= c as u32 && (c as u32) < 128 && is_unreserved(c as u8))
}

proof fn lemma_percent_front(first: u8, rest: Seq<u8>)
    ensures
        percent_bytes(seq![first] + rest) == percent_byte(first) + percent_bytes(rest),
    decreases rest.len(),
{
    let whole = seq![first] + rest;
    if rest.len() == 0 {
        assert(whole.drop_last() =~= Seq::<u8>::empty());
        assert(percent_bytes(whole.drop_last()) =~= Seq::<char>::empty());
        assert(percent_bytes(whole) =~= percent_byte(first) + percent_bytes(rest));
    } else {
        lemma_percent_front(first, rest.drop_last());
        assert(whole.drop_last() =~= seq![first] + rest.drop_last());
        assert(percent_bytes(whole) =~= percent_byte(first) + percent_bytes(rest));
    }
}

proof fn lemma_percent_bytes_injective(a: Seq<u8>, b: Seq<u8>)
    requires
        percent_bytes(a) == percent_bytes(b),
    ensures
        a == b,
    decreases a.len(),
{
    if a.len() > 0 {
        assert(a =~= seq![a[0]] + a.skip(1));
        lemma_percent_front(a[0], a.skip(1));
    }
    if b.len() > 0 {
        assert(b =~= seq![b[0]] + b.skip(1));
        lemma_percent_front(b[0], b.skip(1));
    }
    if a.len() > 0 && b.len() > 0 {
        let p = percent_bytes(a);
        let x = percent_byte(a[0]);
        let y = percent_byte(b[0]);
        assert(p[0] == x[0] && p[0] == y[0]);
        if is_unreserved(a[0]) {
            assert(a[0] == b[0]);
        } else {
            assert(p[1] == x[1] && p[1] == y[1]);
            assert(p[2] == x[2] && p[2] == y[2]);
            assert(a[0] == b[0]);
        }
        assert(percent_bytes(a.skip(1)) =~= p.skip(x.len() as int));
        assert(percent_bytes(b.skip(1)) =~= p.skip(x.len() as int));
        lemma_percent_bytes_injective(a.skip(1), b.skip(1));
    } else {
        if a.len() > 0 {
            assert(percent_bytes(a).len() >= percent_byte(a[0]).len() > 0);
        }
        if b.len() > 0 {
            assert(percent_bytes(b).len() >= percent_byte(b[0]).len() > 0);
        }
        assert(percent_bytes(Seq::<u8>::empty()).len() == 0);
        assert(a =~= b);
    }
}

proof fn lemma_percent_bytes_segment(bytes: Seq<u8>)
    ensures
        forall|i: int|
            0 <= i < percent_bytes(bytes).len() ==> is_segment_char(
                #[trigger] percent_bytes(bytes)[i],
            ),
    decreases bytes.len(),
{
    if bytes.len() > 0 {
        let before = percent_bytes(bytes.drop_last());
        let last = percent_byte(bytes.last());
        lemma_percent_bytes_segment(bytes.drop_last());
        assert forall|i: int| 0 <= i < percent_bytes(bytes).len() implies is_segment_char(
            #[trigger] percent_bytes(bytes)[i],
        ) by {
            if i < before.len() {
                assert(percent_bytes(bytes)[i] == before[i]);
            } else {
                assert(percent_bytes(bytes)[i] == last[i - before.len()]);
            }
        }
    }
}

/// A project id, a path or a branch name keeps within its part of an address once it is encoded:
/// no character of it separates parts.
pub proof fn law_encoded_text_is_one_segment(text: Seq<char>)
    ensures
        forall|i: int|
            0 <= i < percent_encoded(text).len() ==> is_segment_char(
                #[trigger] percent_encoded(text)[i],
            ),
{
    lemma_percent_bytes_segment(encode_utf8(text));
}

/// No two texts are encoded alike.
pub proof fn law_encoding_keeps_texts_apart(a: Seq<char>, b: Seq<char>)
    requires
        percent_encoded(a) == percent_encoded(b),
    ensures
        a == b,
{
    lemma_percent_bytes_injective(encode_utf8(a), encode_utf8(b));
    encode_utf8_decode_utf8(a);
    encode_utf8_decode_utf8(b);
}

} // verus!
