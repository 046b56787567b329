use forge::recorded::{
    names_credential, read_headers, scrub_secrets, Exchange, FixtureFile, ForwardRequest,
    RecordedServer, ServerStep,
};
use forge::wire::{Reply, Request};

#[test]
fn scrub_secrets_removes_authorization() {
    let headers = vec![
        ("authorization".to_string(), "******".to_string()),
        ("content-type".to_string(), "application/json".to_string()),
        ("x-hub-signature-256".to_string(), "sha256=abc".to_string()),
    ];
    let scrubbed = scrub_secrets(&headers);
    assert_eq!(scrubbed.len(), 1);
    assert_eq!(scrubbed[0].0, "content-type");
}

#[test]
fn scrub_secrets_case_insensitive() {
    let headers = vec![
        ("Authorization".to_string(), "token abc".to_string()),
        ("AUTHORIZATION".to_string(), "******".to_string()),
        ("x-request-id".to_string(), "123".to_string()),
    ];
    let scrubbed = scrub_secrets(&headers);
    assert_eq!(scrubbed.len(), 1);
    assert_eq!(scrubbed[0].0, "x-request-id");
}

fn pairs(headers: &[(&str, &str)]) -> Vec<(String, String)> {
    headers.iter().map(|(k, v)| (k.to_string(), v.to_string())).collect()
}

fn raw(headers: &[(&str, &[u8])]) -> Vec<(String, Vec<u8>)> {
    headers.iter().map(|(k, v)| (k.to_string(), v.to_vec())).collect()
}

fn request(method: &str, path: &str) -> Request {
    Request {
        method: method.to_string(),
        path: path.to_string(),
        headers: Vec::new(),
        body: Vec::new(),
    }
}

fn exchange(path: &str, body: &str) -> Exchange {
    Exchange {
        method: "GET".to_string(),
        path: path.to_string(),
        status: 200,
        response_headers: pairs(&[("content-type", "application/json")]),
        response_body: body.to_string(),
    }
}

fn replaying(exchanges: Vec<Exchange>) -> RecordedServer {
    let file = FixtureFile { adapter: "test".to_string(), exchanges };
    RecordedServer::start(8080, "test".to_string(), "http://unused".to_string(), Some(file))
}

fn recording() -> RecordedServer {
    RecordedServer::start(9, "github".to_string(), "https://api.github.com".to_string(), None)
}

fn answer(step: ServerStep) -> Reply {
    match step {
        ServerStep::Answer(reply) => reply,
        ServerStep::Forward(_) => panic!("replay needs no network"),
    }
}

fn forward(step: ServerStep) -> ForwardRequest {
    match step {
        ServerStep::Forward(out) => out,
        ServerStep::Answer(_) => panic!("a recording forwards"),
    }
}

#[test]
fn scrub_secrets_keeps_the_rest_in_order() {
    let headers = pairs(&[
        ("b", "1"),
        ("X-OAuth-Scopes", "repo"),
        ("X-GitLab-To\u{212a}en", "t"),
        ("a", "2"),
        ("x-accepted-oauth-scopes", ""),
        ("x-hub-signature", "sha1"),
        ("authorization2", "3"),
        ("b", "4"),
    ]);
    let kept = pairs(&[("b", "1"), ("a", "2"), ("authorization2", "3"), ("b", "4")]);
    assert_eq!(scrub_secrets(&headers), kept);
    assert_eq!(scrub_secrets(&kept), kept);
    assert!(scrub_secrets(&[]).is_empty());
    assert!(names_credential("authorization") && !names_credential("Authorization"));
}

#[test]
fn replay_server_serves_exchange() {
    let mut server = replaying(vec![exchange("/hello", r#"{"ok":true}"#)]);
    assert_eq!(server.base_url(), "http://127.0.0.1:8080");
    let reply = answer(server.next(&request("GET", "/hello")));
    assert_eq!(reply.status, 200);
    assert_eq!(reply.headers, pairs(&[("content-type", "application/json")]));
    assert_eq!(reply.body, r#"{"ok":true}"#);
}

#[test]
fn replay_server_returns_500_when_exhausted() {
    let mut server = replaying(Vec::new());
    let reply = answer(server.next(&request("GET", "/anything")));
    assert_eq!(reply.status, 500);
    assert!(reply.headers.is_empty());
    assert_eq!(
        reply.body,
        r#"{"error":"forge-fixture: no recorded exchange for GET /anything"}"#
    );
}

#[test]
fn replay_is_in_order_whatever_is_asked() {
    let mut server = replaying(vec![exchange("/a", "1"), exchange("/b", "2"), exchange("/c", "3")]);
    for expected in ["1", "2", "3"] {
        assert!(!server.is_exhausted());
        assert_eq!(answer(server.next(&request("PUT", "/elsewhere"))).body, expected);
    }
    assert!(server.is_exhausted() && !recording().is_exhausted());
    assert_eq!(answer(server.next(&request("GET", "/a"))).status, 500);
    assert!(server.fixture().is_none());
    assert!(server.record(&request("GET", "/a"), 200, &Vec::new(), String::new()).is_none());
}

#[test]
fn recording_forwards_all_but_hop_by_hop() {
    let mut server = recording();
    let mut ask = request("PATCH", "/repos/a?b=c");
    ask.headers = pairs(&[
        ("host", "127.0.0.1"),
        ("authorization", "Bearer t"),
        ("content-length", "2"),
        ("transfer-encoding", "chunked"),
        ("connection", "keep-alive"),
        ("accept", "*/*"),
    ]);
    ask.body = vec![7, 8];
    let out = forward(server.next(&ask));
    assert_eq!(out.method, "PATCH");
    assert_eq!(out.url, "https://api.github.com/repos/a?b=c");
    assert_eq!(out.headers, pairs(&[("authorization", "Bearer t"), ("accept", "*/*")]));
    assert_eq!(out.body, Some(vec![7, 8]));
    let out = forward(server.next(&request("a long extension method".split(' ').last().unwrap(), "/")));
    assert_eq!(out.method, "method");
    assert_eq!(out.body, None);
    for none in ["", "G T", "G\u{e9}T", "(GET)"] {
        assert_eq!(forward(server.next(&request(none, "/"))).method, "GET");
    }
    for token in ["!#$%&'*+-.^_`|~09azAZ", "get"] {
        assert_eq!(forward(server.next(&request(token, "/"))).method, token);
    }
}

#[test]
fn headers_that_are_no_text_are_dropped() {
    let read = read_headers(&raw(&[
        ("ETag", b"\"a\tb\""),
        ("x-bad", b"caf\xc3\xa9"),
        ("x-del", b"\x7f"),
        ("x-empty", b""),
    ]));
    assert_eq!(read, pairs(&[("etag", "\"a\tb\""), ("x-empty", "")]));
}

#[test]
fn recordings_are_scrubbed_and_replayed_alike() {
    let mut server = recording();
    let answers: [(&str, u16, &[u8]); 2] = [("/a", 201, b"text/plain"), ("/b", 404, b"text/html")];
    let mut proxied = Vec::new();
    for (path, status, kind) in answers {
        let headers = raw(&[
            ("Content-Type", kind),
            ("Authorization", b"secret"),
            ("X-Hub-Signature-256", b"sha256=abc"),
        ]);
        let reply = server.record(&request("GET", path), status, &headers, format!("at {}", path));
        proxied.push(reply.unwrap());
    }
    let file = server.fixture().unwrap();
    assert_eq!(file.adapter, "github");
    assert_eq!(file.exchanges.len(), 2);
    assert_eq!(file.exchanges[0].method, "GET");
    assert_eq!(file.exchanges[0].path, "/a");
    assert_eq!(file.exchanges[0].status, 201);
    assert_eq!(file.exchanges[0].response_headers, pairs(&[("content-type", "text/plain")]));
    assert_eq!(file.exchanges[0].response_body, "at /a");
    assert_eq!(file.clone(), file);
    let mut replay = replaying(file.exchanges);
    for reply in proxied {
        assert_eq!(answer(replay.next(&request("GET", "/"))), reply);
    }
    assert_eq!(answer(replay.next(&request("GET", "/"))).status, 500);
}

#[test]
fn empty_fixture() {
    let file = FixtureFile::default();
    assert_eq!(file.adapter, "");
    assert!(file.exchanges.is_empty());
}
