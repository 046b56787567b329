//! The part of HTTP/1.1 that the fixture server speaks: requests read line by line, responses
//! written whole.
use vstd::prelude::*;
use vstd::utf8::*;

use crate::outside::lowercased;
use crate::text::{
    all_digits, decimal, decimal_of, digits_value, is_digit, is_first, is_line_end,
    lemma_first_is_unique, line_text, owned, parse_number, parsed_number, same_text,
    split_at_first, split_once, trim, trim_line_end, trimmed, up_to,
};

verus! {

/// Headers by their names and values.
pub open spec fn headers_view(headers: Seq<(String, String)>) -> Seq<(Seq<char>, Seq<char>)> {
    headers.map_values(|h: (String, String)| (h.0@, h.1@))
}

/// A request, read in full.
#[derive(Debug, PartialEq, Eq)]
pub struct Request {
    pub method: String,
    /// Path and query.
    pub path: String,
    /// Names are in lower case.
    pub headers: Vec<(String, String)>,
    pub body: Vec<u8>,
}

/// What is known of a request while its headers are read.
#[derive(Debug, PartialEq, Eq)]
pub struct RequestHead {
    pub method: String,
    pub path: String,
    pub headers: Vec<(String, String)>,
    pub content_length: usize,
}

/// The model of a [`RequestHead`].
pub struct RequestHeadView {
    pub method: Seq<char>,
    pub path: Seq<char>,
    pub headers: Seq<(Seq<char>, Seq<char>)>,
    pub content_length: usize,
}

impl View for RequestHead {
    type V = RequestHeadView;

    open spec fn view(&self) -> RequestHeadView {
        RequestHeadView {
            method: self.method@,
            path: self.path@,
            headers: headers_view(self.headers@),
            content_length: self.content_length,
        }
    }
}

/// What a request line says: the method, and the path between the first two spaces.
pub open spec fn request_line(line: Seq<char>) -> Option<RequestHeadView> {
    let text = line_text(line);
    if text.len() == 0 {
        None
    } else {
        Some(
            RequestHeadView {
                method: up_to(text, ' '),
                path: match split_once(text, ' ') {
                    Some(parts) => up_to(parts.1, ' '),
                    None => "/"@,
                },
                headers: Seq::empty(),
                content_length: 0,
            },
        )
    }
}

/// The header that a line holds, if it has a colon: the name in lower case and the value, both
/// without surrounding whitespace.
pub open spec fn header_in(line: Seq<char>) -> Option<(Seq<char>, Seq<char>)> {
    match split_once(line_text(line), ':') {
        Some(parts) => Some((lowercased(trimmed(parts.0)), trimmed(parts.1))),
        None => None,
    }
}

impl RequestHeadView {
    /// The head with one more header. A content length that is no number counts as none.
    pub open spec fn with_header(self, name: Seq<char>, value: Seq<char>) -> RequestHeadView {
        RequestHeadView {
            headers: self.headers.push((name, value)),
            content_length: if name == "content-length"@ {
                match parsed_number(value) {
                    Some(n) => n,
                    None => 0,
                }
            } else {
                self.content_length
            },
            ..self
        }
    }

    /// The head after one more line, which is not blank.
    pub open spec fn with_line(self, line: Seq<char>) -> RequestHeadView {
        match header_in(line) {
            Some(header) => self.with_header(header.0, header.1),
            None => self,
        }
    }

    /// The head after more lines, none of them blank.
    pub open spec fn with_lines(self, lines: Seq<Seq<char>>) -> RequestHeadView
        decreases lines.len(),
    {
        if lines.len() == 0 {
            self
        } else {
            self.with_lines(lines.drop_last()).with_line(lines.last())
        }
    }
}

/// The first line of a request, none when the connection was closed. Nothing comes of it when the
/// connection was closed or the line is blank.
pub fn start_request(line: Option<&str>) -> (head: Option<RequestHead>)
    ensures
        match line {
            None => head is None,
            Some(l) => match request_line(l@) {
                None => head is None,
                Some(view) => head matches Some(h) && h@ == view,
            },
        },
{
    match line {
        None => None,
        Some(l) => {
            let text = trim_line_end(l);
            if text.as_str().is_empty() {
                return None;
            }
            let (method, path) = match split_at_first(text.as_str(), ' ') {
                None => (text, owned("/")),
                Some((method, rest)) => match split_at_first(rest.as_str(), ' ') {
                    None => (method, rest),
                    Some((path, _)) => (method, path),
                },
            };
            let head = RequestHead { method, path, headers: Vec::new(), content_length: 0 };
            assert(headers_view(head.headers@) =~= Seq::<(Seq<char>, Seq<char>)>::empty());
            Some(head)
        },
    }
}

/// The body length that the value of a content length stands for, nothing when it is no number.
pub fn length_in(value: &str) -> (length: Option<usize>)
    ensures
        length == parsed_number(value@),
{
    parse_number(value)
}

/// Where reading a head has got to.
pub enum HeadStep {
    /// Another line is to be read.
    More(RequestHead),
    /// The head is complete; `content_length` bytes of body follow.
    Complete(RequestHead),
}

impl RequestHead {
    /// Take the next line of the head, none when the connection was closed. A blank line, or the
    /// end of the connection, completes it.
    pub fn read_line(self, line: Option<&str>) -> (step: HeadStep)
        ensures
            match line {
                None => step == HeadStep::Complete(self),
                Some(l) => if line_text(l@).len() == 0 {
                    step == HeadStep::Complete(self)
                } else {
                    step matches HeadStep::More(head) && head@ == self@.with_line(l@)
                },
            },
    {
        match line {
            None => HeadStep::Complete(self),
            Some(l) => {
                let text = trim_line_end(l);
                if text.as_str().is_empty() {
                    return HeadStep::Complete(self);
                }
                match split_at_first(text.as_str(), ':') {
                    Some((name, value)) => {
                        let name = trim(name.as_str()).as_str().to_lowercase();
                        HeadStep::More(self.with_header(name, trim(value.as_str())))
                    },
                    None => HeadStep::More(self),
                }
            },
        }
    }

    /// Take one header, its name in lower case.
    pub fn with_header(self, name: String, value: String) -> (head: RequestHead)
        ensures
            head@ == self@.with_header(name@, value@),
    {
        let mut head = self;
        if same_text(name.as_str(), "content-length") {
            head.content_length = match length_in(value.as_str()) {
                Some(n) => n,
                None => 0,
            };
        }
        head.headers.push((name, value));
        assert(headers_view(head.headers@) =~= headers_view(self.headers@).push((name@, value@)));
        head
    }

    /// The request, once its body was read.
    pub fn with_body(self, body: Vec<u8>) -> (request: Request)
        ensures
            request.method == self.method,
            request.path == self.path,
            request.headers == self.headers,
            request.body == body,
    {
        Request { method: self.method, path: self.path, headers: self.headers, body }
    }
}

/// The reason phrase that the server writes for a status.
pub open spec fn reason_of(status: u16) -> Seq<char> {
    match status {
        200 => "OK"@,
        201 => "Created"@,
        204 => "No Content"@,
        301 => "Moved Permanently"@,
        302 => "Found"@,
        304 => "Not Modified"@,
        400 => "Bad Request"@,
        401 => "Unauthorized"@,
        403 => "Forbidden"@,
        404 => "Not Found"@,
        405 => "Method Not Allowed"@,
        406 => "Not Acceptable"@,
        409 => "Conflict"@,
        422 => "Unprocessable Entity"@,
        500 => "Internal Server Error"@,
        502 => "Bad Gateway"@,
        503 => "Service Unavailable"@,
        _ => "Unknown"@,
    }
}

/// The reason phrase for a status.
pub fn reason_phrase(status: u16) -> (reason: &'static str)
    ensures
        reason@ == reason_of(status),
{
    match status {
        200 => "OK",
        201 => "Created",
        204 => "No Content",
        301 => "Moved Permanently",
        302 => "Found",
        304 => "Not Modified",
        400 => "Bad Request",
        401 => "Unauthorized",
        403 => "Forbidden",
        404 => "Not Found",
        405 => "Method Not Allowed",
        406 => "Not Acceptable",
        409 => "Conflict",
        422 => "Unprocessable Entity",
        500 => "Internal Server Error",
        502 => "Bad Gateway",
        503 => "Service Unavailable",
        _ => "Unknown",
    }
}

/// A response to write.
#[derive(Debug, PartialEq, Eq)]
pub struct Reply {
    pub status: u16,
    pub headers: Vec<(String, String)>,
    pub body: String,
}

/// The model of a [`Reply`].
pub struct ReplyView {
    pub status: u16,
    pub headers: Seq<(Seq<char>, Seq<char>)>,
    pub body: Seq<char>,
}

impl View for Reply {
    type V = ReplyView;

    open spec fn view(&self) -> ReplyView {
        ReplyView {
            status: self.status,
            headers: headers_view(self.headers@),
            body: self.body@,
        }
    }
}

/// Header lines, one after the other.
pub open spec fn header_lines(headers: Seq<(Seq<char>, Seq<char>)>) -> Seq<char>
    decreases headers.len(),
{
    if headers.len() == 0 {
        Seq::empty()
    } else {
        header_lines(headers.drop_last()) + headers.last().0 + ": "@ + headers.last().1 + "\r\n"@
    }
}

impl ReplyView {
    /// The head of the response: the status line, the headers, the length of the body in bytes,
    /// and that the connection closes.
    pub open spec fn head(self) -> Seq<char> {
        "HTTP/1.1 "@ + decimal(self.status as nat) + " "@ + reason_of(self.status) + "\r\n"@
            + header_lines(self.headers) + "content-length: "@ + decimal(
            encode_utf8(self.body).len(),
        ) + "\r\n"@ + "connection: close\r\n\r\n"@
    }

    /// The response as it is written.
    pub open spec fn written(self) -> Seq<char> {
        self.head() + self.body
    }
}

impl Reply {
    /// The response as it is written.
    pub fn to_text(&self) -> (text: String)
        ensures
            text@ == self@.written(),
    {
        let mut text = owned("HTTP/1.1 ");
        text.append(decimal_of(self.status as u64).as_str());
        text.append(" ");
        text.append(reason_phrase(self.status));
        text.append("\r\n");
        let ghost start = text@;
        let ghost headers = headers_view(self.headers@);
        let mut i: usize = 0;
        assert(headers.take(0) =~= Seq::<(Seq<char>, Seq<char>)>::empty());
        assert(text@ =~= start + header_lines(headers.take(0)));
        while i < self.headers.len()
            invariant
                i <= self.headers@.len(),
                headers == headers_view(self.headers@),
                text@ == start + header_lines(headers.take(i as int)),
            decreases self.headers@.len() - i,
        {
            proof {
                let next = headers.take(i + 1);
                assert(next.drop_last() =~= headers.take(i as int));
                assert(next.last() == headers[i as int]);
            }
            let ghost before = header_lines(headers.take(i as int));
            let header = &self.headers[i];
            text.append(header.0.as_str());
            text.append(": ");
            text.append(header.1.as_str());
            text.append("\r\n");
            assert(text@ =~= start + (before + header.0@ + ": "@ + header.1@ + "\r\n"@));
            i = i + 1;
        }
        assert(headers.take(headers.len() as int) =~= headers);
        text.append("content-length: ");
        text.append(decimal_of(self.body.as_str().as_bytes().len() as u64).as_str());
        text.append("\r\n");
        text.append("connection: close\r\n\r\n");
        text.append(self.body.as_str());
        text
    }
}

/// The headers that lines hold, in order; lines without a colon hold none.
pub open spec fn headers_in(lines: Seq<Seq<char>>) -> Seq<(Seq<char>, Seq<char>)>
    decreases lines.len(),
{
    if lines.len() == 0 {
        Seq::empty()
    } else {
        match header_in(lines.last()) {
            Some(header) => headers_in(lines.drop_last()).push(header),
            None => headers_in(lines.drop_last()),
        }
    }
}

/// The length that headers announce: the last one counts, none or one that is no number is zero.
pub open spec fn announced_length(headers: Seq<(Seq<char>, Seq<char>)>) -> usize
    decreases headers.len(),
{
    if headers.len() == 0 {
        0
    } else if headers.last().0 == "content-length"@ {
        match parsed_number(headers.last().1) {
            Some(n) => n,
            None => 0,
        }
    } else {
        announced_length(headers.drop_last())
    }
}

/// Reading the lines of a head keeps the headers that they hold, in order, and leaves the method
/// and the path of the request line alone.
pub proof fn law_head_keeps_its_headers(head: RequestHeadView, lines: Seq<Seq<char>>)
    ensures
        head.with_lines(lines).headers == head.headers + headers_in(lines),
        head.with_lines(lines).method == head.method,
        head.with_lines(lines).path == head.path,
    decreases lines.len(),
{
    if lines.len() > 0 {
        law_head_keeps_its_headers(head, lines.drop_last());
    }
    assert(head.with_lines(lines).headers =~= head.headers + headers_in(lines));
}

/// However many lines a head takes, as many bytes of body are read as its headers announce.
pub proof fn law_body_is_as_long_as_announced(first: Seq<char>, lines: Seq<Seq<char>>)
    ensures
        request_line(first) matches Some(head) ==> head.with_lines(lines).content_length
            == announced_length(head.with_lines(lines).headers),
    decreases lines.len(),
{
    if request_line(first) is Some {
        let head = request_line(first)->0;
        if lines.len() > 0 {
            law_body_is_as_long_as_announced(first, lines.drop_last());
            let before = head.with_lines(lines.drop_last());
            match header_in(lines.last()) {
                Some(header) => {
                    assert(before.headers.push(header).drop_last() =~= before.headers);
                },
                None => {},
            }
        }
    }
}

proof fn lemma_decimal_is_read_back(n: nat)
    ensures
        all_digits(decimal(n)),
        digits_value(decimal(n)) == n,
        decimal(n)[0] != '+',
    decreases n,
{
    let text = decimal(n);
    if n >= 10 {
        lemma_decimal_is_read_back(n / 10);
        assert(text.drop_last() =~= decimal(n / 10));
        assert forall|i: int| 0 <= i < text.len() implies is_digit(#[trigger] text[i]) by {
            if i < text.len() - 1 {
                assert(text[i] == decimal(n / 10)[i]);
            }
        }
    } else {
        assert(text.drop_last() =~= Seq::<char>::empty());
        assert(digits_value(text.drop_last()) == 0);
    }
}

/// A content length that is written is read back as the same number.
pub proof fn law_written_length_is_read_back(n: usize)
    ensures
        parsed_number(decimal(n as nat)) == Some(n),
{
    lemma_decimal_is_read_back(n as nat);
}

/// A header line that is written is read back as the same header: the name, in lower case, and the
/// value, both without surrounding whitespace. A name holds no colon, and a value no line ending.
pub proof fn law_written_header_is_read_back(name: Seq<char>, value: Seq<char>)
    requires
        !name.contains(':'),
        forall|i: int| 0 <= i < value.len() ==> !is_line_end(#[trigger] value[i]),
    ensures
        header_in(header_lines(seq![(name, value)])) == Some(
            (lowercased(trimmed(name)), trimmed(value)),
        ),
{
    reveal_strlit(": ");
    reveal_strlit("\r\n");
    let headers = seq![(name, value)];
    let text = name + ": "@ + value;
    let line = header_lines(headers);
    assert(header_lines(headers.drop_last()) =~= Seq::<char>::empty());
    assert(line =~= text + "\r\n"@);
    assert(line.drop_last() =~= text.push('\r'));
    assert(line.drop_last().drop_last() =~= text);
    assert(line_text(line) == line_text(line.drop_last()));
    assert(line_text(line.drop_last()) == line_text(text));
    assert(line_text(text) == text) by {
        if value.len() > 0 {
            assert(text.last() == value[value.len() - 1]);
        } else {
            assert(text.last() == ' ');
        }
    }
    let colon = name.len() as int;
    assert(is_first(text, ':', colon)) by {
        assert forall|j: int| 0 <= j < colon implies text[j] != ':' by {
            assert(text[j] == name[j]);
        }
    }
    assert(text.contains(':')) by {
        assert(text[colon] == ':');
    }
    let first = choose|i: int| is_first(text, ':', i);
    lemma_first_is_unique(text, ':', colon, first);
    assert(text.take(colon) =~= name);
    let rest = text.skip(colon + 1);
    assert(rest[0] == ' ');
    assert(rest.skip(1) =~= value);
    assert(trimmed(rest) == trimmed(value));
}

proof fn lemma_encode_utf8_concat(a: Seq<char>, b: Seq<char>)
    ensures
        encode_utf8(a + b) == encode_utf8(a) + encode_utf8(b),
    decreases a.len(),
{
    if a.len() == 0 {
        assert(a + b =~= b);
        assert(encode_utf8(a + b) =~= encode_utf8(a) + encode_utf8(b));
    } else {
        lemma_encode_utf8_concat(a.drop_first(), b);
        assert((a + b).drop_first() =~= a.drop_first() + b);
        assert((a + b)[0] == a[0]);
        assert(encode_utf8(a + b) =~= encode_utf8(a) + encode_utf8(b));
    }
}

/// A response announces just the bytes that follow its head: the head ends in the length of the
/// body, and the body is what comes after it.
pub proof fn law_response_announces_its_body(reply: ReplyView)
    ensures
        ("content-length: "@ + decimal(encode_utf8(reply.body).len()) + "\r\n"@
            + "connection: close\r\n\r\n"@).is_suffix_of(reply.head()),
        encode_utf8(reply.written()) == encode_utf8(reply.head()) + encode_utf8(reply.body),
{
    let start = "HTTP/1.1 "@ + decimal(reply.status as nat) + " "@ + reason_of(reply.status)
        + "\r\n"@ + header_lines(reply.headers);
    let end = "content-length: "@ + decimal(encode_utf8(reply.body).len()) + "\r\n"@
        + "connection: close\r\n\r\n"@;
    assert(reply.head() =~= start + end);
    assert(end =~= reply.head().subrange(start.len() as int, reply.head().len() as int));
    lemma_encode_utf8_concat(reply.head(), reply.body);
}

} // verus!
