//! Recorded fixtures for offline conformance runs.
//!
//! A fixture holds the HTTP exchanges of an adapter, recorded against a real forge. The server
//! either replays them in order, or forwards every request to the real forge and captures what
//! comes back. Credentials never reach a fixture; see [`scrub_secrets`].
use std::collections::VecDeque;

use vstd::prelude::*;
use vstd::utf8::*;

use crate::outside::{
    ascii_text, header_text, is_header_text, is_method_name, is_token_byte, is_visible_ascii,
    lowercased, method_name,
};
use crate::text::{decimal, decimal_of, is_line_end, joined, owned, same_text};
use crate::wire::{headers_view, Reply, ReplyView, Request};

verus! {

/// A single captured HTTP request/response exchange.
///
/// Only the response matters for replay; the request is stored so that a reader can see what each
/// response corresponds to.
#[derive(Debug, PartialEq, Eq)]
pub struct Exchange {
    /// HTTP method.
    pub method: String,
    /// Request path and query (no scheme or host).
    pub path: String,
    /// HTTP response status code.
    pub status: u16,
    /// Response headers as name and value, names in lower case, without credentials.
    pub response_headers: Vec<(String, String)>,
    /// Response body.
    pub response_body: String,
}

/// The model of an [`Exchange`].
pub struct ExchangeView {
    pub method: Seq<char>,
    pub path: Seq<char>,
    pub status: u16,
    pub response_headers: Seq<(Seq<char>, Seq<char>)>,
    pub response_body: Seq<char>,
}

impl View for Exchange {
    type V = ExchangeView;

    open spec fn view(&self) -> ExchangeView {
        ExchangeView {
            method: self.method@,
            path: self.path@,
            status: self.status,
            response_headers: headers_view(self.response_headers@),
            response_body: self.response_body@,
        }
    }
}

impl ExchangeView {
    /// The response of an exchange.
    pub open spec fn reply(self) -> ReplyView {
        ReplyView {
            status: self.status,
            headers: self.response_headers,
            body: self.response_body,
        }
    }
}

/// An ordered sequence of HTTP exchanges: one fixture file per adapter.
#[derive(Debug, PartialEq, Eq)]
pub struct FixtureFile {
    /// Which adapter produced this recording ("github", "gitlab", ...).
    pub adapter: String,
    /// The recorded exchanges, in the order they were made.
    pub exchanges: Vec<Exchange>,
}

/// Exchanges by their models.
pub open spec fn exchanges_view(exchanges: Seq<Exchange>) -> Seq<ExchangeView> {
    exchanges.map_values(|e: Exchange| e@)
}

impl FixtureFile {
    /// The recorded exchanges.
    pub open spec fn recording(&self) -> Seq<ExchangeView> {
        exchanges_view(self.exchanges@)
    }
}

impl Default for FixtureFile {
    fn default() -> (file: FixtureFile)
        ensures
            file.adapter@ == Seq::<char>::empty(),
            file.exchanges@ == Seq::<Exchange>::empty(),
    {
        FixtureFile { adapter: String::new(), exchanges: Vec::new() }
    }
}

fn copy_headers(headers: &Vec<(String, String)>) -> (copy: Vec<(String, String)>)
    ensures
        copy@ == headers@,
{
    let mut copy: Vec<(String, String)> = Vec::new();
    let mut i: usize = 0;
    while i < headers.len()
        invariant
            i <= headers@.len(),
            copy@ == headers@.take(i as int),
        decreases headers@.len() - i,
    {
        assert(headers@.take(i + 1) =~= headers@.take(i as int).push(headers@[i as int]));
        copy.push((headers[i].0.clone(), headers[i].1.clone()));
        i = i + 1;
    }
    assert(headers@.take(headers@.len() as int) =~= headers@);
    copy
}

impl Clone for Exchange {
    fn clone(&self) -> (copy: Exchange)
        ensures
            copy@ == self@,
    {
        Exchange {
            method: self.method.clone(),
            path: self.path.clone(),
            status: self.status,
            response_headers: copy_headers(&self.response_headers),
            response_body: self.response_body.clone(),
        }
    }
}

fn copy_exchanges(exchanges: &Vec<Exchange>) -> (copy: Vec<Exchange>)
    ensures
        exchanges_view(copy@) == exchanges_view(exchanges@),
{
    let mut copy: Vec<Exchange> = Vec::new();
    let mut i: usize = 0;
    while i < exchanges.len()
        invariant
            i <= exchanges@.len(),
            copy@.len() == i,
            forall|j: int| 0 <= j < i ==> (#[trigger] copy@[j])@ == exchanges@[j]@,
        decreases exchanges@.len() - i,
    {
        copy.push(exchanges[i].clone());
        i = i + 1;
    }
    assert(exchanges_view(copy@) =~= exchanges_view(exchanges@));
    copy
}

impl Clone for FixtureFile {
    fn clone(&self) -> (copy: FixtureFile)
        ensures
            copy.adapter == self.adapter,
            copy.recording() == self.recording(),
    {
        FixtureFile {
            adapter: self.adapter.clone(),
            exchanges: copy_exchanges(&self.exchanges),
        }
    }
}

/// Whether a header of this name, in lower case, carries a credential.
pub open spec fn is_credential_name(lower: Seq<char>) -> bool {
    ||| lower == "authorization"@
    ||| lower == "x-gitlab-token"@
    ||| lower == "x-hub-signature"@
    ||| lower == "x-hub-signature-256"@
    ||| lower == "x-oauth-scopes"@
    ||| lower == "x-accepted-oauth-scopes"@
}

/// Whether a header carries a credential, whatever the case of its name.
pub open spec fn is_secret(name: Seq<char>) -> bool {
    is_credential_name(lowercased(name))
}

/// The headers that carry no credential, in order.
pub open spec fn scrubbed(headers: Seq<(String, String)>) -> Seq<(String, String)> {
    headers.filter(|h: (String, String)| !is_secret(h.0@))
}

/// Whether a header of this name, in lower case, carries a credential.
pub fn names_credential(lower: &str) -> (credential: bool)
    ensures
        credential == is_credential_name(lower@),
{
    same_text(lower, "authorization") || same_text(lower, "x-gitlab-token") || same_text(
        lower,
        "x-hub-signature",
    ) || same_text(lower, "x-hub-signature-256") || same_text(lower, "x-oauth-scopes")
        || same_text(lower, "x-accepted-oauth-scopes")
}

/// Strip credentials from a header list before it is written to a fixture file.
///
/// `Authorization` headers carry long-lived tokens, and the hub and GitLab headers carry HMAC
/// secrets; names are matched in any case. The rest is kept, in order.
pub fn scrub_secrets(headers: &[(String, String)]) -> (kept: Vec<(String, String)>)
    ensures
        kept@ == scrubbed(headers@),
{
    let mut kept: Vec<(String, String)> = Vec::new();
    let ghost keep = |h: (String, String)| !is_secret(h.0@);
    proof {
        reveal(Seq::filter);
    }
    let mut i: usize = 0;
    assert(headers@.take(0) =~= Seq::<(String, String)>::empty());
    while i < headers.len()
        invariant
            i <= headers@.len(),
            keep == (|h: (String, String)| !is_secret(h.0@)),
            kept@ == headers@.take(i as int).filter(keep),
        decreases headers@.len() - i,
    {
        proof {
            reveal(Seq::filter);
            let next = headers@.take(i + 1);
            assert(next.drop_last() =~= headers@.take(i as int));
            assert(next.last() == headers@[i as int]);
        }
        let header = &headers[i];
        if !names_credential(header.0.as_str().to_lowercase().as_str()) {
            kept.push((header.0.clone(), header.1.clone()));
        }
        i = i + 1;
    }
    assert(headers@.take(headers@.len() as int) =~= headers@);
    kept
}

/// Whether no header carries a credential.
pub open spec fn is_clean(headers: Seq<(Seq<char>, Seq<char>)>) -> bool {
    forall|i: int| 0 <= i < headers.len() ==> !is_secret((#[trigger] headers[i]).0)
}

/// Whether no exchange carries a credential.
pub open spec fn all_clean(exchanges: Seq<ExchangeView>) -> bool {
    forall|i: int|
        0 <= i < exchanges.len() ==> is_clean((#[trigger] exchanges[i]).response_headers)
}

/// The headers that carry no credential, in order, by name and value.
pub open spec fn scrubbed_view(headers: Seq<(Seq<char>, Seq<char>)>) -> Seq<
    (Seq<char>, Seq<char>),
> {
    headers.filter(|h: (Seq<char>, Seq<char>)| !is_secret(h.0))
}

/// Scrubbing headers and then looking at names and values is the same as the other way round.
proof fn lemma_scrubbed_view(headers: Seq<(String, String)>)
    ensures
        headers_view(scrubbed(headers)) == scrubbed_view(headers_view(headers)),
    decreases headers.len(),
{
    reveal(Seq::filter);
    let view = headers_view(headers);
    if headers.len() > 0 {
        lemma_scrubbed_view(headers.drop_last());
        assert(view.drop_last() =~= headers_view(headers.drop_last()));
        assert(headers_view(scrubbed(headers)) =~= scrubbed_view(view));
    } else {
        assert(headers_view(scrubbed(headers)) =~= scrubbed_view(view));
    }
}

proof fn lemma_filter_members<A>(s: Seq<A>, keep: spec_fn(A) -> bool)
    ensures
        forall|i: int|
            0 <= i < s.filter(keep).len() ==> keep(#[trigger] s.filter(keep)[i]) && s.contains(
                s.filter(keep)[i],
            ),
    decreases s.len(),
{
    reveal(Seq::filter);
    if s.len() > 0 {
        let before = s.drop_last();
        lemma_filter_members(before, keep);
        assert forall|i: int| 0 <= i < s.filter(keep).len() implies keep(
            #[trigger] s.filter(keep)[i],
        ) && s.contains(s.filter(keep)[i]) by {
            if i < before.filter(keep).len() {
                let a = before.filter(keep)[i];
                let k = choose|k: int| 0 <= k < before.len() && before[k] == a;
                assert(s[k] == a);
            } else {
                assert(s[s.len() - 1] == s.filter(keep)[i]);
            }
        }
    }
}

proof fn lemma_filter_keeps_all<A>(s: Seq<A>, keep: spec_fn(A) -> bool)
    requires
        forall|i: int| 0 <= i < s.len() ==> keep(#[trigger] s[i]),
    ensures
        s.filter(keep) == s,
    decreases s.len(),
{
    reveal(Seq::filter);
    if s.len() > 0 {
        lemma_filter_keeps_all(s.drop_last(), keep);
        assert(s.filter(keep) =~= s);
    } else {
        assert(s.filter(keep) =~= s);
    }
}

/// What is left after scrubbing carries no credential.
pub proof fn law_scrubbed_headers_are_clean(headers: Seq<(Seq<char>, Seq<char>)>)
    ensures
        is_clean(scrubbed_view(headers)),
{
    lemma_filter_members(headers, |h: (Seq<char>, Seq<char>)| !is_secret(h.0));
}

/// Headers without credentials are left as they are; so scrubbing twice is scrubbing once.
pub proof fn law_clean_headers_are_kept(headers: Seq<(Seq<char>, Seq<char>)>)
    ensures
        is_clean(headers) ==> scrubbed_view(headers) == headers,
        scrubbed_view(scrubbed_view(headers)) == scrubbed_view(headers),
{
    let keep = |h: (Seq<char>, Seq<char>)| !is_secret(h.0);
    law_scrubbed_headers_are_clean(headers);
    if is_clean(headers) {
        lemma_filter_keeps_all(headers, keep);
    }
    lemma_filter_keeps_all(scrubbed_view(headers), keep);
}

/// The response for a request that comes after all exchanges were replayed.
pub open spec fn exhausted(method: Seq<char>, path: Seq<char>) -> ReplyView {
    ReplyView {
        status: 500,
        headers: Seq::empty(),
        body: "{\"error\":\"forge-fixture: no recorded exchange for "@ + method + " "@ + path
            + "\"}"@,
    }
}

/// What the next request is answered while exchanges are replayed, whatever it asks for: the next
/// recorded response, or that there is none left.
pub open spec fn replayed(queue: Seq<ExchangeView>, method: Seq<char>, path: Seq<char>) -> ReplyView {
    if queue.len() > 0 {
        queue[0].reply()
    } else {
        exhausted(method, path)
    }
}

/// What is left to replay after one more request.
pub open spec fn rest_of(queue: Seq<ExchangeView>) -> Seq<ExchangeView> {
    if queue.len() > 0 {
        queue.skip(1)
    } else {
        queue
    }
}

/// Exchanges to replay, in order.
pub struct ReplayQueue {
    exchanges: VecDeque<Exchange>,
}

impl ReplayQueue {
    /// The exchanges that are left.
    pub closed spec fn left(&self) -> Seq<ExchangeView> {
        exchanges_view(self.exchanges@)
    }

    /// Replay a fixture from its start.
    pub fn new(file: FixtureFile) -> (queue: ReplayQueue)
        ensures
            queue.left() == file.recording(),
    {
        let mut from = file.exchanges;
        let mut exchanges: VecDeque<Exchange> = VecDeque::new();
        let ghost all = from@;
        while from.len() > 0
            invariant
                from@.len() <= all.len(),
                from@ == all.take(from@.len() as int),
                exchanges@ == all.skip(from@.len() as int),
            decreases from@.len(),
        {
            let ghost n = from@.len() as int;
            match from.pop() {
                Some(exchange) => {
                    exchanges.push_front(exchange);
                    assert(exchanges@ =~= all.skip(n - 1));
                    assert(from@ =~= all.take(n - 1));
                },
                None => {},
            }
        }
        assert(all.skip(0) =~= all);
        ReplayQueue { exchanges }
    }

    /// Whether nothing is left.
    pub fn is_exhausted(&self) -> (exhausted: bool)
        ensures
            exhausted == (self.left().len() == 0),
    {
        self.exchanges.len() == 0
    }

    /// Answer the next request.
    pub fn answer(&mut self, method: &str, path: &str) -> (reply: Reply)
        ensures
            reply@ == replayed(old(self).left(), method@, path@),
            final(self).left() == rest_of(old(self).left()),
    {
        match self.exchanges.pop_front() {
            Some(exchange) => {
                assert(exchanges_view(self.exchanges@) =~= rest_of(old(self).left()));
                Reply {
                    status: exchange.status,
                    headers: exchange.response_headers,
                    body: exchange.response_body,
                }
            },
            None => {
                let mut body = owned("{\"error\":\"forge-fixture: no recorded exchange for ");
                body.append(method);
                body.append(" ");
                body.append(path);
                body.append("\"}");
                let reply = Reply { status: 500, headers: Vec::new(), body };
                assert(headers_view(reply.headers@) =~= Seq::<(Seq<char>, Seq<char>)>::empty());
                reply
            },
        }
    }
}

/// Whether a header is for one connection only, or is set anew by the client that forwards.
pub open spec fn is_hop_by_hop(name: Seq<char>) -> bool {
    ||| name == "host"@
    ||| name == "content-length"@
    ||| name == "transfer-encoding"@
    ||| name == "connection"@
}

/// The method that a request is forwarded with: its own, or GET when that is none.
pub open spec fn forwarded_method(method: Seq<char>) -> Seq<char> {
    if is_method_name(encode_utf8(method)) {
        ascii_text(encode_utf8(method))
    } else {
        "GET"@
    }
}

/// A request to forward to the real forge.
#[derive(Debug, PartialEq, Eq)]
pub struct ForwardRequest {
    pub method: String,
    pub url: String,
    pub headers: Vec<(String, String)>,
    /// Absent when it is empty.
    pub body: Option<Vec<u8>>,
}

/// Whether a forwarded request is right: to the real forge, with everything but the headers that
/// are for one connection only.
pub open spec fn forwards(upstream: Seq<char>, request: Request, out: ForwardRequest) -> bool {
    &&& out.method@ == forwarded_method(request.method@)
    &&& out.url@ == upstream + request.path@
    &&& out.headers@ == request.headers@.filter(|h: (String, String)| !is_hop_by_hop(h.0@))
    &&& match out.body {
        Some(body) => body@.len() > 0 && body@ == request.body@,
        None => request.body@.len() == 0,
    }
}

fn end_to_end(headers: &Vec<(String, String)>) -> (kept: Vec<(String, String)>)
    ensures
        kept@ == headers@.filter(|h: (String, String)| !is_hop_by_hop(h.0@)),
{
    let mut kept: Vec<(String, String)> = Vec::new();
    let ghost keep = |h: (String, String)| !is_hop_by_hop(h.0@);
    proof {
        reveal(Seq::filter);
    }
    let mut i: usize = 0;
    assert(headers@.take(0) =~= Seq::<(String, String)>::empty());
    while i < headers.len()
        invariant
            i <= headers@.len(),
            keep == (|h: (String, String)| !is_hop_by_hop(h.0@)),
            kept@ == headers@.take(i as int).filter(keep),
        decreases headers@.len() - i,
    {
        proof {
            reveal(Seq::filter);
            let next = headers@.take(i + 1);
            assert(next.drop_last() =~= headers@.take(i as int));
            assert(next.last() == headers@[i as int]);
        }
        let name = headers[i].0.as_str();
        if !(same_text(name, "host") || same_text(name, "content-length") || same_text(
            name,
            "transfer-encoding",
        ) || same_text(name, "connection")) {
            kept.push((headers[i].0.clone(), headers[i].1.clone()));
        }
        i = i + 1;
    }
    assert(headers@.take(headers@.len() as int) =~= headers@);
    kept
}

/// Raw response headers by their names and bytes.
pub open spec fn raw_view(headers: Seq<(String, Vec<u8>)>) -> Seq<(Seq<char>, Seq<u8>)> {
    headers.map_values(|h: (String, Vec<u8>)| (h.0@, h.1@))
}

/// The response headers that are text, in order, names in lower case.
pub open spec fn text_headers(headers: Seq<(Seq<char>, Seq<u8>)>) -> Seq<(Seq<char>, Seq<char>)>
    decreases headers.len(),
{
    if headers.len() == 0 {
        Seq::empty()
    } else if is_header_text(headers.last().1) {
        text_headers(headers.drop_last()).push(
            (lowercased(headers.last().0), ascii_text(headers.last().1)),
        )
    } else {
        text_headers(headers.drop_last())
    }
}

/// The response headers that are text, in order, names in lower case.
pub fn read_headers(headers: &Vec<(String, Vec<u8>)>) -> (read: Vec<(String, String)>)
    ensures
        headers_view(read@) == text_headers(raw_view(headers@)),
{
    let mut read: Vec<(String, String)> = Vec::new();
    let ghost raw = raw_view(headers@);
    let mut i: usize = 0;
    assert(raw.take(0) =~= Seq::<(Seq<char>, Seq<u8>)>::empty());
    assert(headers_view(read@) =~= Seq::<(Seq<char>, Seq<char>)>::empty());
    while i < headers.len()
        invariant
            i <= headers@.len(),
            raw == raw_view(headers@),
            headers_view(read@) == text_headers(raw.take(i as int)),
        decreases headers@.len() - i,
    {
        proof {
            let next = raw.take(i + 1);
            assert(next.drop_last() =~= raw.take(i as int));
            assert(next.last() == raw[i as int]);
        }
        let ghost before = headers_view(read@);
        match header_text(headers[i].1.as_slice()) {
            Some(value) => {
                let name = headers[i].0.as_str().to_lowercase();
                read.push((name, value));
                assert(headers_view(read@) =~= before.push((name@, value@)));
            },
            None => {},
        }
        i = i + 1;
    }
    assert(raw.take(raw.len() as int) =~= raw);
    read
}

/// The exchange that is captured of a request and what the real forge answered.
pub open spec fn captured(
    method: Seq<char>,
    path: Seq<char>,
    status: u16,
    headers: Seq<(Seq<char>, Seq<u8>)>,
    body: Seq<char>,
) -> ExchangeView {
    ExchangeView {
        method,
        path,
        status,
        response_headers: scrubbed_view(text_headers(headers)),
        response_body: body,
    }
}

/// A recording in progress. None of its exchanges carries a credential.
pub struct RecordState {
    adapter: String,
    exchanges: Vec<Exchange>,
    upstream: String,
}

impl RecordState {
    #[verifier::type_invariant]
    spec fn carries_no_credential(self) -> bool {
        forall|i: int|
            0 <= i < self.exchanges@.len() ==> is_clean(
                (#[trigger] self.exchanges@[i])@.response_headers,
            )
    }

    /// Which adapter is recorded.
    pub closed spec fn adapter_name(&self) -> Seq<char> {
        self.adapter@
    }

    /// Base URL of the real forge.
    pub closed spec fn upstream_url(&self) -> Seq<char> {
        self.upstream@
    }

    /// What was recorded so far.
    pub closed spec fn recording(&self) -> Seq<ExchangeView> {
        exchanges_view(self.exchanges@)
    }

    /// Start recording `adapter` against the forge at `upstream`.
    pub fn new(adapter: String, upstream: String) -> (state: RecordState)
        ensures
            state.adapter_name() == adapter@,
            state.upstream_url() == upstream@,
            state.recording() == Seq::<ExchangeView>::empty(),
    {
        let state = RecordState { adapter, exchanges: Vec::new(), upstream };
        assert(state.recording() =~= Seq::<ExchangeView>::empty());
        state
    }

    /// The request to make of the real forge: everything is passed on but the headers that are for
    /// one connection only.
    pub fn forward(&self, request: &Request) -> (out: ForwardRequest)
        ensures
            forwards(self.upstream_url(), *request, out),
    {
        let method = match method_name(request.method.as_str().as_bytes()) {
            Some(name) => name,
            None => owned("GET"),
        };
        let body = if request.body.len() > 0 {
            let body = request.body.clone();
            assert(body@ =~= request.body@);
            Some(body)
        } else {
            None
        };
        ForwardRequest {
            method,
            url: joined(self.upstream.as_str(), request.path.as_str()),
            headers: end_to_end(&request.headers),
            body,
        }
    }

    /// Capture what the real forge answered, credentials scrubbed, and answer the request so.
    pub fn record(
        &mut self,
        request: &Request,
        status: u16,
        headers: &Vec<(String, Vec<u8>)>,
        body: String,
    ) -> (reply: Reply)
        ensures
            final(self).recording() == old(self).recording().push(
                captured(request.method@, request.path@, status, raw_view(headers@), body@),
            ),
            reply@ == captured(
                request.method@,
                request.path@,
                status,
                raw_view(headers@),
                body@,
            ).reply(),
            final(self).adapter_name() == old(self).adapter_name(),
            final(self).upstream_url() == old(self).upstream_url(),
    {
        proof {
            use_type_invariant(&*self);
        }
        let read = read_headers(headers);
        let kept = scrub_secrets(read.as_slice());
        proof {
            lemma_scrubbed_view(read@);
            law_scrubbed_headers_are_clean(headers_view(read@));
        }
        let exchange = Exchange {
            method: request.method.clone(),
            path: request.path.clone(),
            status,
            response_headers: copy_headers(&kept),
            response_body: body.clone(),
        };
        let mut exchanges: Vec<Exchange> = Vec::new();
        std::mem::swap(&mut exchanges, &mut self.exchanges);
        exchanges.push(exchange);
        assert(exchanges_view(exchanges@) =~= old(self).recording().push(exchange@));
        self.exchanges = exchanges;
        Reply { status, headers: kept, body }
    }

    /// The fixture to write.
    pub fn fixture(&self) -> (file: FixtureFile)
        ensures
            file.adapter@ == self.adapter_name(),
            file.recording() == self.recording(),
            all_clean(file.recording()),
    {
        proof {
            use_type_invariant(self);
        }
        FixtureFile {
            adapter: self.adapter.clone(),
            exchanges: copy_exchanges(&self.exchanges),
        }
    }
}

/// What a fixture server does with the requests that it gets.
enum Session {
    /// Replays a fixture.
    Replay(ReplayQueue),
    /// Forwards to the real forge and captures the traffic.
    Record(RecordState),
}

/// A local HTTP server that replays recorded fixtures or forwards to a real forge and captures
/// the traffic.
pub struct RecordedServer {
    base_url: String,
    session: Session,
}

/// What to do about a request.
pub enum ServerStep {
    /// Answer it.
    Answer(Reply),
    /// Forward it to the real forge, then go on with [`RecordedServer::record`].
    Forward(ForwardRequest),
}

/// The address of a server on this machine.
pub open spec fn local_url(port: u16) -> Seq<char> {
    "http://127.0.0.1:"@ + decimal(port as nat)
}

impl RecordedServer {
    /// `http://127.0.0.1:<port>`
    pub closed spec fn url(&self) -> Seq<char> {
        self.base_url@
    }

    /// Whether the server records.
    pub closed spec fn is_recording(&self) -> bool {
        self.session is Record
    }

    /// The exchanges that are left to replay.
    pub closed spec fn left(&self) -> Seq<ExchangeView> {
        match self.session {
            Session::Replay(queue) => queue.left(),
            Session::Record(_) => Seq::empty(),
        }
    }

    /// What was recorded so far.
    pub closed spec fn recording(&self) -> Seq<ExchangeView> {
        match self.session {
            Session::Replay(_) => Seq::empty(),
            Session::Record(state) => state.recording(),
        }
    }

    /// Which adapter is recorded.
    pub closed spec fn adapter_name(&self) -> Seq<char> {
        match self.session {
            Session::Replay(_) => Seq::empty(),
            Session::Record(state) => state.adapter_name(),
        }
    }

    /// Base URL of the real forge, where the server records.
    pub closed spec fn upstream_url(&self) -> Seq<char> {
        match self.session {
            Session::Replay(_) => Seq::empty(),
            Session::Record(state) => state.upstream_url(),
        }
    }

    /// Start a server that listens on `port`. With a fixture it replays that; without one it
    /// records `adapter` against the forge at `upstream`.
    pub fn start(port: u16, adapter: String, upstream: String, fixture: Option<FixtureFile>) -> (server:
        RecordedServer)
        ensures
            server.url() == local_url(port),
            server.is_recording() == (fixture is None),
            match fixture {
                Some(file) => server.left() == file.recording(),
                None => server.adapter_name() == adapter@ && server.upstream_url() == upstream@
                    && server.left() == Seq::<ExchangeView>::empty(),
            },
            server.recording() == Seq::<ExchangeView>::empty(),
    {
        let mut base_url = owned("http://127.0.0.1:");
        base_url.append(decimal_of(port as u64).as_str());
        let session = match fixture {
            Some(file) => Session::Replay(ReplayQueue::new(file)),
            None => Session::Record(RecordState::new(adapter, upstream)),
        };
        RecordedServer { base_url, session }
    }

    /// `http://127.0.0.1:<port>`: the API base URL for the adapter's HTTP client.
    #[must_use]
    pub fn base_url(&self) -> (url: &str)
        ensures
            url@ == self.url(),
    {
        self.base_url.as_str()
    }

    /// Whether the server replays and has nothing left to replay.
    pub fn is_exhausted(&self) -> (exhausted: bool)
        ensures
            exhausted == (!self.is_recording() && self.left().len() == 0),
    {
        match &self.session {
            Session::Replay(queue) => queue.is_exhausted(),
            Session::Record(_) => false,
        }
    }

    /// What to do about the next request. A server that replays answers it from its fixture, and
    /// never has to reach the real forge.
    pub fn next(&mut self, request: &Request) -> (step: ServerStep)
        ensures
            final(self).url() == old(self).url(),
            final(self).is_recording() == old(self).is_recording(),
            final(self).adapter_name() == old(self).adapter_name(),
            final(self).upstream_url() == old(self).upstream_url(),
            final(self).recording() == old(self).recording(),
            if old(self).is_recording() {
                step matches ServerStep::Forward(out) && forwards(
                    old(self).upstream_url(),
                    *request,
                    out,
                ) && final(self).left() == old(self).left()
            } else {
                step matches ServerStep::Answer(reply) && reply@ == replayed(
                    old(self).left(),
                    request.method@,
                    request.path@,
                ) && final(self).left() == rest_of(old(self).left())
            },
    {
        match &mut self.session {
            Session::Replay(queue) => ServerStep::Answer(
                queue.answer(request.method.as_str(), request.path.as_str()),
            ),
            Session::Record(state) => ServerStep::Forward(state.forward(request)),
        }
    }

    /// Capture what the real forge answered to a forwarded request, credentials scrubbed, and
    /// answer the request so. A server that replays captures nothing.
    pub fn record(
        &mut self,
        request: &Request,
        status: u16,
        headers: &Vec<(String, Vec<u8>)>,
        body: String,
    ) -> (reply: Option<Reply>)
        ensures
            final(self).url() == old(self).url(),
            final(self).is_recording() == old(self).is_recording(),
            final(self).adapter_name() == old(self).adapter_name(),
            final(self).upstream_url() == old(self).upstream_url(),
            final(self).left() == old(self).left(),
            if old(self).is_recording() {
                reply matches Some(r) && r@ == captured(
                    request.method@,
                    request.path@,
                    status,
                    raw_view(headers@),
                    body@,
                ).reply() && final(self).recording() == old(self).recording().push(
                    captured(request.method@, request.path@, status, raw_view(headers@), body@),
                )
            } else {
                reply is None && final(self).recording() == old(self).recording()
            },
    {
        match &mut self.session {
            Session::Replay(_) => None,
            Session::Record(state) => Some(state.record(request, status, headers, body)),
        }
    }

    /// The fixture to write when the server stops: what was recorded, without credentials. A
    /// server that replays writes none.
    pub fn fixture(&self) -> (file: Option<FixtureFile>)
        ensures
            match file {
                Some(f) => self.is_recording() && f.adapter@ == self.adapter_name()
                    && f.recording() == self.recording() && all_clean(f.recording()),
                None => !self.is_recording(),
            },
    {
        match &self.session {
            Session::Replay(_) => None,
            Session::Record(state) => Some(state.fixture()),
        }
    }
}

/// What the real forge answered to a request.
pub struct Answer {
    pub method: Seq<char>,
    pub path: Seq<char>,
    pub status: u16,
    pub headers: Seq<(Seq<char>, Seq<u8>)>,
    pub body: Seq<char>,
}

impl Answer {
    /// The exchange that is captured of it.
    pub open spec fn exchange(self) -> ExchangeView {
        captured(self.method, self.path, self.status, self.headers, self.body)
    }
}

/// What is recorded of answers of the real forge, in order.
pub open spec fn recorded(answers: Seq<Answer>) -> Seq<ExchangeView> {
    answers.map_values(|a: Answer| a.exchange())
}

/// What the requests of a recording are answered, in order.
pub open spec fn proxied(answers: Seq<Answer>) -> Seq<ReplyView> {
    answers.map_values(|a: Answer| a.exchange().reply())
}

/// What is left to replay after a number of requests.
pub open spec fn left_after(queue: Seq<ExchangeView>, asked: nat) -> Seq<ExchangeView>
    decreases asked,
{
    if asked == 0 {
        queue
    } else {
        rest_of(left_after(queue, (asked - 1) as nat))
    }
}

proof fn lemma_left_after(queue: Seq<ExchangeView>, asked: nat)
    ensures
        asked <= queue.len() ==> left_after(queue, asked) == queue.skip(asked as int),
        asked >= queue.len() ==> left_after(queue, asked) == Seq::<ExchangeView>::empty(),
    decreases asked,
{
    if asked > 0 {
        lemma_left_after(queue, (asked - 1) as nat);
    }
    if asked <= queue.len() {
        assert(left_after(queue, asked) =~= queue.skip(asked as int));
    }
    if asked >= queue.len() {
        assert(left_after(queue, asked) =~= Seq::<ExchangeView>::empty());
    }
}

/// Exchanges are replayed in the order they were recorded, whatever is asked for; a request that
/// comes after all of them is told that none is left.
pub proof fn law_replay_is_in_order(
    queue: Seq<ExchangeView>,
    asked: nat,
    method: Seq<char>,
    path: Seq<char>,
)
    ensures
        asked < queue.len() ==> replayed(left_after(queue, asked), method, path)
            == queue[asked as int].reply(),
        asked >= queue.len() ==> replayed(left_after(queue, asked), method, path) == exhausted(
            method,
            path,
        ),
{
    lemma_left_after(queue, asked);
}

/// Replaying a recording answers each request just as it was answered while it was recorded.
pub proof fn law_replay_repeats_the_recording(
    answers: Seq<Answer>,
    i: int,
    method: Seq<char>,
    path: Seq<char>,
)
    requires
        0 <= i < answers.len(),
    ensures
        replayed(left_after(recorded(answers), i as nat), method, path) == proxied(answers)[i],
{
    law_replay_is_in_order(recorded(answers), i as nat, method, path);
}

/// Whatever the real forge answers, nothing that is recorded of it carries a credential.
pub proof fn law_recordings_carry_no_credential(answers: Seq<Answer>)
    ensures
        all_clean(recorded(answers)),
{
    assert forall|i: int| 0 <= i < recorded(answers).len() implies is_clean(
        (#[trigger] recorded(answers)[i]).response_headers,
    ) by {
        law_scrubbed_headers_are_clean(text_headers(answers[i].headers));
    }
}

/// Whether a text stays on one line.
pub open spec fn is_on_one_line(text: Seq<char>) -> bool {
    forall|i: int| 0 <= i < text.len() ==> !is_line_end(#[trigger] text[i])
}

proof fn lemma_text_headers_stay_on_one_line(headers: Seq<(Seq<char>, Seq<u8>)>)
    ensures
        forall|h: (Seq<char>, Seq<char>)| #[trigger]
            text_headers(headers).contains(h) ==> is_on_one_line(h.1),
    decreases headers.len(),
{
    if headers.len() > 0 {
        let before = text_headers(headers.drop_last());
        let bytes = headers.last().1;
        lemma_text_headers_stay_on_one_line(headers.drop_last());
        assert forall|h: (Seq<char>, Seq<char>)| #[trigger]
            text_headers(headers).contains(h) implies is_on_one_line(h.1) by {
            let i = choose|i: int|
                0 <= i < text_headers(headers).len() && text_headers(headers)[i] == h;
            if i < before.len() {
                assert(before.contains(before[i]));
            } else {
                assert forall|j: int| 0 <= j < h.1.len() implies !is_line_end(
                    #[trigger] h.1[j],
                ) by {
                    assert(is_visible_ascii(bytes[j]));
                }
            }
        }
    }
}

/// Whatever the real forge answers, each header value that is recorded of it stays on one line, so
/// it is written within its own header line.
pub proof fn law_recorded_values_stay_on_one_line(answer: Answer, i: int)
    requires
        0 <= i < answer.exchange().response_headers.len(),
    ensures
        is_on_one_line(answer.exchange().response_headers[i].1),
{
    let read = text_headers(answer.headers);
    lemma_filter_members(read, |h: (Seq<char>, Seq<char>)| !is_secret(h.0));
    lemma_text_headers_stay_on_one_line(answer.headers);
    assert(read.contains(scrubbed_view(read)[i]));
}

proof fn lemma_ascii_decodes_to_itself(bytes: Seq<u8>)
    requires
        forall|i: int| 0 <= i < bytes.len() ==> (#[trigger] bytes[i]) < 128,
        valid_utf8(bytes),
    ensures
        decode_utf8(bytes) == ascii_text(bytes),
    decreases bytes.len(),
{
    if bytes.len() > 0 {
        let b = bytes[0];
        assert(b & 0x7f == b) by (bit_vector)
            requires
                b < 128,
        ;
        let rest = pop_first_scalar(bytes);
        assert(rest =~= bytes.skip(1));
        lemma_ascii_decodes_to_itself(rest);
        assert(decode_utf8(bytes) =~= ascii_text(bytes));
    } else {
        assert(decode_utf8(bytes) =~= ascii_text(bytes));
    }
}

/// A request is forwarded with its own method wherever that is one.
pub proof fn law_methods_are_forwarded_unchanged(method: Seq<char>)
    requires
        is_method_name(encode_utf8(method)),
    ensures
        forwarded_method(method) == method,
{
    let bytes = encode_utf8(method);
    encode_utf8_valid_utf8(method);
    encode_utf8_decode_utf8(method);
    assert forall|i: int| 0 <= i < bytes.len() implies (#[trigger] bytes[i]) < 128 by {
        assert(is_token_byte(bytes[i]));
    }
    lemma_ascii_decodes_to_itself(bytes);
}

} // verus!
