use forge::wire::{length_in, reason_phrase, start_request, HeadStep, Reply, Request, RequestHead};

fn more(step: HeadStep) -> RequestHead {
    match step {
        HeadStep::More(head) => head,
        HeadStep::Complete(_) => panic!("the head is not complete"),
    }
}

fn complete(step: HeadStep) -> RequestHead {
    match step {
        HeadStep::Complete(head) => head,
        HeadStep::More(_) => panic!("the head is complete"),
    }
}

fn read(lines: &[&str]) -> RequestHead {
    let mut head = start_request(Some(lines[0])).unwrap();
    for line in &lines[1..] {
        head = more(head.read_line(Some(line)));
    }
    head
}

#[test]
fn request_lines() {
    let head = start_request(Some("GET /repos/acme?x=1 HTTP/1.1\r\n")).unwrap();
    assert_eq!(head.method, "GET");
    assert_eq!(head.path, "/repos/acme?x=1");
    assert_eq!(head.content_length, 0);
    assert!(head.headers.is_empty());
    let head = start_request(Some("DELETE\n")).unwrap();
    assert_eq!((head.method.as_str(), head.path.as_str()), ("DELETE", "/"));
    let head = start_request(Some("PUT /x")).unwrap();
    assert_eq!((head.method.as_str(), head.path.as_str()), ("PUT", "/x"));
    let head = start_request(Some(" /x y z")).unwrap();
    assert_eq!((head.method.as_str(), head.path.as_str()), ("", "/x"));
    let head = start_request(Some("GET  HTTP/1.1")).unwrap();
    assert_eq!((head.method.as_str(), head.path.as_str()), ("GET", ""));
    assert!(start_request(None).is_none());
    assert!(start_request(Some("\r\n")).is_none());
    assert!(start_request(Some("")).is_none());
}

#[test]
fn headers_are_kept_in_order_in_lower_case() {
    let head = read(&[
        "POST /x HTTP/1.1\r\n",
        "Host: localhost:80\r\n",
        "  X-\u{212a}elvin :\u{a0}a: b \r\n",
        "no colon here\r\n",
        "Content-Length: 5\r\n",
    ]);
    let expected: Vec<(String, String)> = [
        ("host", "localhost:80"),
        ("x-kelvin", "a: b"),
        ("content-length", "5"),
    ]
    .iter()
    .map(|(k, v)| (k.to_string(), v.to_string()))
    .collect();
    assert_eq!(head.headers, expected);
    assert_eq!(head.content_length, 5);
}

#[test]
fn blank_line_or_end_completes_the_head() {
    let head = complete(read(&["GET / HTTP/1.1\r\n"]).read_line(Some("\r\n")));
    assert_eq!(head.path, "/");
    let head = complete(read(&["GET / HTTP/1.1\r\n", "a: b\n"]).read_line(None));
    assert_eq!(head.headers.len(), 1);
    // Whitespace alone is no blank line.
    let head = more(read(&["GET / HTTP/1.1\r\n"]).read_line(Some(" \r\n")));
    assert!(head.headers.is_empty());
}

#[test]
fn last_content_length_counts() {
    for (value, expected) in [
        ("12", 12),
        ("+7", 7),
        ("007", 7),
        ("", 0),
        ("+", 0),
        ("-1", 0),
        ("1 2", 0),
        ("0x10", 0),
        ("18446744073709551616", 0),
    ] {
        let line = format!("Content-Length: {}\r\n", value);
        let head = read(&["GET / HTTP/1.1\r\n", "content-length: 99\r\n", &line]);
        assert_eq!(head.content_length, expected, "{}", value);
    }
    assert_eq!(length_in("12"), Some(12));
    assert_eq!(length_in("twelve"), None);
    let largest = format!("content-length:{}", usize::MAX);
    assert_eq!(read(&["GET / HTTP/1.1\r\n", &largest]).content_length, usize::MAX);
}

#[test]
fn body_completes_the_request() {
    let head = read(&["PUT /x HTTP/1.1\r\n", "content-length: 2\r\n"]);
    let request = head.with_body(vec![1, 2]);
    assert_eq!(
        request,
        Request {
            method: "PUT".to_string(),
            path: "/x".to_string(),
            headers: vec![("content-length".to_string(), "2".to_string())],
            body: vec![1, 2],
        }
    );
}

#[test]
fn headers_that_were_read_are_taken() {
    let head = read(&["GET / HTTP/1.1\r\n"]);
    let head = head.with_header("content-length".to_string(), "3".to_string());
    let head = head.with_header("Content-Length".to_string(), "4".to_string());
    assert_eq!(head.content_length, 3);
    assert_eq!(head.headers.len(), 2);
}

#[test]
fn reason_phrases() {
    for (code, phrase) in [
        (200, "OK"),
        (201, "Created"),
        (204, "No Content"),
        (301, "Moved Permanently"),
        (302, "Found"),
        (304, "Not Modified"),
        (400, "Bad Request"),
        (401, "Unauthorized"),
        (403, "Forbidden"),
        (404, "Not Found"),
        (405, "Method Not Allowed"),
        (406, "Not Acceptable"),
        (409, "Conflict"),
        (422, "Unprocessable Entity"),
        (500, "Internal Server Error"),
        (502, "Bad Gateway"),
        (503, "Service Unavailable"),
        (418, "Unknown"),
        (0, "Unknown"),
    ] {
        assert_eq!(reason_phrase(code), phrase);
    }
}

#[test]
fn responses_are_written_whole() {
    let reply = Reply {
        status: 200,
        headers: vec![
            ("content-type".to_string(), "application/json".to_string()),
            ("x-a".to_string(), "b".to_string()),
        ],
        body: "{\"n\":\"\u{e9}\"}".to_string(),
    };
    assert_eq!(
        reply.to_text(),
        "HTTP/1.1 200 OK\r\ncontent-type: application/json\r\nx-a: b\r\ncontent-length: 10\r\nconnection: close\r\n\r\n{\"n\":\"\u{e9}\"}"
    );
    let empty = Reply { status: 65535, headers: Vec::new(), body: String::new() };
    assert_eq!(
        empty.to_text(),
        "HTTP/1.1 65535 Unknown\r\ncontent-length: 0\r\nconnection: close\r\n\r\n"
    );
}

#[test]
fn written_headers_are_read_back() {
    let reply = Reply {
        status: 200,
        headers: vec![("x-a".to_string(), "b: c".to_string())],
        body: "hi".to_string(),
    };
    let text = reply.to_text();
    let mut head = start_request(Some("GET / HTTP/1.1\r\n")).unwrap();
    for line in text.split_inclusive('\n').skip(1).take(3) {
        head = more(head.read_line(Some(line)));
    }
    assert_eq!(head.headers[0], ("x-a".to_string(), "b: c".to_string()));
    assert_eq!(head.content_length, 2);
}
