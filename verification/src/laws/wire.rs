//! Laws of reading requests and writing responses.
use vstd::prelude::*;
use vstd::utf8::*;

use crate::laws::text::{law_line_text, law_splitting, law_splitting_is_unique};
use crate::outside::lowercased;
use crate::text::{
    all_digits, decimal, digits_value, is_digit, line_text, split_once, trimmed, unsigned_part,
};
use crate::wire::{
    header_lines, headers_view, length_in, reason_phrase, start_request, HeadStep, Reply, Request,
    RequestHead,
};

verus! {

/// A request begins with any line that is not blank. Its method is the text up to the first space,
/// its path the text from there up to the next space, or "/" where there is no space at all. It has
/// no headers and no body yet.
pub proof fn law_request_line(line: Option<&str>, head: Option<RequestHead>)
    requires
        call_ensures(start_request, (line,), head),
    ensures
        head is Some <==> line is Some && line_text(line->0@).len() > 0,
        head matches Some(h) ==> h.headers@.len() == 0 && h.content_length == 0
            && !h.method@.contains(' ') && {
            let text = line_text(line->0@);
            ||| text == h.method@ && h.path@ == "/"@
            ||| text == h.method@ + seq![' '] + h.path@ && !h.path@.contains(' ')
            ||| !h.path@.contains(' ') && exists|rest: Seq<char>|
                text == #[trigger] (h.method@ + seq![' '] + (h.path@ + seq![' '] + rest))
        },
{
    if head is Some {
        let h = head->0;
        let text = line_text(line->0@);
        law_splitting(text, ' ');
        assert(headers_view(h.headers@).len() == h.headers@.len());
        if text.contains(' ') {
            let rest = (split_once(text, ' ')->0).1;
            law_splitting(rest, ' ');
            if rest.contains(' ') {
                let more = (split_once(rest, ' ')->0).1;
                assert(text == h.method@ + seq![' '] + (h.path@ + seq![' '] + more));
            }
        }
    }
}

/// A head is complete with a blank line or the end of the connection, and is then as it was. A line
/// with a colon adds one header at the end: the name before the first colon, in lower case, and the
/// value after it, both trimmed. Any other line adds nothing. Method and path stay.
pub proof fn law_header_line(
    head: RequestHead,
    line: Option<&str>,
    step: HeadStep,
    name: Seq<char>,
    value: Seq<char>,
)
    requires
        call_ensures(RequestHead::read_line, (head, line), step),
    ensures
        match step {
            HeadStep::Complete(same) => same == head && (line is None || line_text(line->0@).len()
                == 0),
            HeadStep::More(next) => line matches Some(l) && line_text(l@).len() > 0 && next.method@
                == head.method@ && next.path@ == head.path@ && (!line_text(l@).contains(':')
                ==> same_headers(next, head) && next.content_length == head.content_length) && (
            !name.contains(':') && line_text(l@) == name + seq![':'] + value ==> adds_header(
                head,
                next,
                lowercased(trimmed(name)),
                trimmed(value),
            )),
        },
{
    if line is Some {
        let text = line_text(line->0@);
        law_splitting(text, ':');
        if !name.contains(':') && text == name + seq![':'] + value {
            law_splitting_is_unique(name, ':', value);
        }
        if let HeadStep::More(next) = step {
            let before = headers_view(head.headers@);
            let after = headers_view(next.headers@);
            assert(before.len() == head.headers@.len() && after.len() == next.headers@.len());
            assert forall|i: int| 0 <= i < head.headers@.len() && i < next.headers@.len() implies (
            #[trigger] next.headers@[i]).0@ == head.headers@[i].0@ && next.headers@[i].1@
                == head.headers@[i].1@ by {
                assert(before[i] == (head.headers@[i].0@, head.headers@[i].1@));
                assert(after[i] == (next.headers@[i].0@, next.headers@[i].1@));
            }
            if next.headers@.len() > head.headers@.len() {
                let n = head.headers@.len() as int;
                assert(after[n] == (next.headers@[n].0@, next.headers@[n].1@));
            }
        }
    }
}

/// Whether two heads hold the same headers.
pub open spec fn same_headers(a: RequestHead, b: RequestHead) -> bool {
    a.headers@.len() == b.headers@.len() && forall|i: int|
        0 <= i < b.headers@.len() ==> (#[trigger] a.headers@[i]).0@ == b.headers@[i].0@
            && a.headers@[i].1@ == b.headers@[i].1@
}

/// Whether a head holds one more header than before, at the end. What a content length announces
/// is the number that it stands for, none when it is no number; no other header changes that.
pub open spec fn adds_header(
    before: RequestHead,
    after: RequestHead,
    name: Seq<char>,
    value: Seq<char>,
) -> bool {
    &&& after.headers@.len() == before.headers@.len() + 1
    &&& after.headers@[before.headers@.len() as int].0@ == name
    &&& after.headers@[before.headers@.len() as int].1@ == value
    &&& forall|i: int|
        0 <= i < before.headers@.len() ==> (#[trigger] after.headers@[i]).0@
            == before.headers@[i].0@ && after.headers@[i].1@ == before.headers@[i].1@
    &&& name != "content-length"@ ==> after.content_length == before.content_length
    &&& name == "content-length"@ ==> forall|text: &str, n: Option<usize>| #[trigger]
        call_ensures(length_in, (text,), n) && text@ == value ==> after.content_length == match n {
            Some(length) => length,
            None => 0,
        }
}

/// Taking a header adds just that one.
pub proof fn law_taken_header(head: RequestHead, name: String, value: String, next: RequestHead)
    requires
        call_ensures(RequestHead::with_header, (head, name, value), next),
    ensures
        next.method@ == head.method@,
        next.path@ == head.path@,
        adds_header(head, next, name@, value@),
{
    let before = headers_view(head.headers@);
    let after = headers_view(next.headers@);
    let n = head.headers@.len() as int;
    assert(before.len() == n && after.len() == next.headers@.len());
    assert(after[n] == (next.headers@[n].0@, next.headers@[n].1@));
    assert forall|i: int| 0 <= i < n implies (#[trigger] next.headers@[i]).0@ == head.headers@[i].0@
        && next.headers@[i].1@ == head.headers@[i].1@ by {
        assert(before[i] == (head.headers@[i].0@, head.headers@[i].1@));
        assert(after[i] == (next.headers@[i].0@, next.headers@[i].1@));
    }
}

/// A request is its head and its body, nothing of either changed.
pub proof fn law_request_is_head_and_body(head: RequestHead, body: Vec<u8>, request: Request)
    requires
        call_ensures(RequestHead::with_body, (head, body), request),
    ensures
        request.method@ == head.method@,
        request.path@ == head.path@,
        request.headers@ == head.headers@,
        request.body@ == body@,
{
}

/// A length is read digit by digit: one digit stands for itself, one more digit at the end makes
/// it ten times as much and that digit, as long as it fits. A leading plus sign changes nothing,
/// and nothing but digits is read.
pub proof fn law_length(
    shorter: &str,
    longer: &str,
    c: char,
    n: Option<usize>,
    m: Option<usize>,
)
    requires
        call_ensures(length_in, (shorter,), n),
        call_ensures(length_in, (longer,), m),
    ensures
        shorter@.len() == 0 || shorter@ == seq!['+'] ==> n is None,
        (exists|i: int|
            0 < i < shorter@.len() && !('0' <= #[trigger] shorter@[i] && shorter@[i] <= '9'))
            ==> n is None,
        shorter@.len() == 1 && '0' <= shorter@[0] && shorter@[0] <= '9' ==> n == Some(
            (shorter@[0] as u32 - '0' as u32) as usize,
        ),
        longer@ == shorter@.push(c) && n is Some && '0' <= c && c <= '9' ==> if n->0 * 10 + (c as u32
            - '0' as u32) <= usize::MAX {
            m matches Some(k) && k == n->0 * 10 + (c as u32 - '0' as u32)
        } else {
            m is None
        },
        longer@ == shorter@.push(c) && n is None && shorter@.len() > 0 && shorter@ != seq!['+']
            ==> m is None,
        longer@ == seq!['+'] + shorter@ && shorter@.len() > 0 && shorter@[0] != '+' ==> m == n,
        shorter@.len() > 0 && shorter@[0] != '+' && !('0' <= shorter@[0] && shorter@[0] <= '9')
            ==> n is None,
{
    let s = shorter@;
    let l = longer@;
    let ds = unsigned_part(s);
    let dl = unsigned_part(l);
    if exists|i: int| 0 < i < s.len() && !('0' <= #[trigger] s[i] && s[i] <= '9') {
        let i = choose|i: int| 0 < i < s.len() && !('0' <= #[trigger] s[i] && s[i] <= '9');
        let k = i - (s.len() - ds.len());
        assert(ds[k] == s[i]);
        assert(!is_digit(ds[k]));
    }
    if s.len() == 1 && '0' <= s[0] && s[0] <= '9' {
        assert(ds.drop_last() =~= Seq::<char>::empty());
        assert(digits_value(ds.drop_last()) == 0);
        assert(is_digit(ds[0]));
    }
    if s.len() > 0 && s[0] != '+' && !('0' <= s[0] && s[0] <= '9') {
        assert(!is_digit(ds[0]));
    }
    if l == s.push(c) && n is Some && '0' <= c && c <= '9' {
        assert(dl =~= ds.push(c));
        assert(dl.drop_last() =~= ds);
        assert forall|i: int| 0 <= i < dl.len() implies is_digit(#[trigger] dl[i]) by {
            if i < ds.len() {
                assert(dl[i] == ds[i]);
            }
        }
        assert(all_digits(dl));
    }
    if l == s.push(c) && n is None && s.len() > 0 && s != seq!['+'] {
        assert(dl =~= ds.push(c));
        assert(dl.drop_last() =~= ds);
        if s.len() == 1 && s[0] == '+' {
            assert(s =~= seq!['+']);
        }
        if !all_digits(ds) {
            let i = choose|i: int| 0 <= i < ds.len() && !is_digit(#[trigger] ds[i]);
            assert(dl[i] == ds[i]);
        }
    }
    if l == seq!['+'] + s && s.len() > 0 && s[0] != '+' {
        assert(dl =~= s);
    }
}

/// The reason phrase of each status that has one; any other status is unknown.
pub proof fn law_reason_phrases(status: u16, reason: &'static str)
    requires
        call_ensures(reason_phrase, (status,), reason),
    ensures
        status == 200 ==> reason@ == "OK"@,
        status == 201 ==> reason@ == "Created"@,
        status == 204 ==> reason@ == "No Content"@,
        status == 301 ==> reason@ == "Moved Permanently"@,
        status == 302 ==> reason@ == "Found"@,
        status == 304 ==> reason@ == "Not Modified"@,
        status == 400 ==> reason@ == "Bad Request"@,
        status == 401 ==> reason@ == "Unauthorized"@,
        status == 403 ==> reason@ == "Forbidden"@,
        status == 404 ==> reason@ == "Not Found"@,
        status == 405 ==> reason@ == "Method Not Allowed"@,
        status == 406 ==> reason@ == "Not Acceptable"@,
        status == 409 ==> reason@ == "Conflict"@,
        status == 422 ==> reason@ == "Unprocessable Entity"@,
        status == 500 ==> reason@ == "Internal Server Error"@,
        status == 502 ==> reason@ == "Bad Gateway"@,
        status == 503 ==> reason@ == "Service Unavailable"@,
        (status != 200 && status != 201 && status != 204 && status != 301 && status != 302 && status
            != 304 && status != 400 && status != 401 && status != 403 && status != 404 && status
            != 405 && status != 406 && status != 409 && status != 422 && status != 500 && status
            != 502 && status != 503) ==> reason@ == "Unknown"@,
{
}

/// Header lines stand one after the other, each a name, a colon and a space, the value and a line
/// ending.
pub proof fn law_header_lines(
    headers: Seq<(Seq<char>, Seq<char>)>,
    name: Seq<char>,
    value: Seq<char>,
)
    ensures
        header_lines(Seq::empty()) == Seq::<char>::empty(),
        header_lines(headers.push((name, value))) == header_lines(headers) + name + ": "@ + value
            + "\r\n"@,
{
    assert(headers.push((name, value)).drop_last() =~= headers);
}

/// A response is written whole: the status line, every header in order, the number of bytes of the
/// body, that the connection closes, and then the body itself, unchanged.
pub proof fn law_response(reply: &Reply, reason: &'static str, text: String)
    requires
        call_ensures(reason_phrase, (reply.status,), reason),
        call_ensures(Reply::to_text, (reply,), text),
    ensures
        text@ == "HTTP/1.1 "@ + decimal(reply.status as nat) + " "@ + reason@ + "\r\n"@
            + header_lines(
            Seq::new(reply.headers@.len(), |i: int| (reply.headers@[i].0@, reply.headers@[i].1@)),
        ) + "content-length: "@ + decimal(encode_utf8(reply.body@).len()) + "\r\n"@
            + "connection: close\r\n\r\n"@ + reply.body@,
{
    assert(headers_view(reply.headers@) =~= Seq::new(
        reply.headers@.len(),
        |i: int| (reply.headers@[i].0@, reply.headers@[i].1@),
    ));
}

/// A blank line holds nothing but the characters of line endings.
pub proof fn law_blank_line(line: Option<&str>, head: Option<RequestHead>)
    requires
        call_ensures(start_request, (line,), head),
    ensures
        head is None <==> line is None || forall|i: int|
            0 <= i < line->0@.len() ==> #[trigger] line->0@[i] == '\r' || line->0@[i] == '\n',
{
    if line is Some {
        let l = line->0@;
        law_line_text(l);
        let text = line_text(l);
        if text.len() > 0 {
            assert(text[text.len() - 1] == l.subrange(0, text.len() as int)[text.len() - 1]);
            assert(l[text.len() - 1] != '\r' && l[text.len() - 1] != '\n');
        }
    }
}

} // verus!
