//! Laws of recording and replaying.
use vstd::prelude::*;
use vstd::utf8::*;

use crate::outside::{ascii_text, is_header_text, is_method_name, lowercased};
use crate::recorded::{
    exchanges_view, is_hop_by_hop, is_secret, law_methods_are_forwarded_unchanged,
    names_credential, raw_view, read_headers, scrub_secrets, scrubbed_view, text_headers, Exchange,
    ExchangeView, FixtureFile, ForwardRequest, RecordState, RecordedServer, ReplayQueue, ServerStep,
};
use crate::text::decimal;
use crate::wire::{headers_view, Reply, Request};

verus! {

/// Headers by their names and values, one for one.
pub open spec fn pairs(headers: Seq<(String, String)>) -> Seq<(Seq<char>, Seq<char>)> {
    Seq::new(headers.len(), |i: int| (headers[i].0@, headers[i].1@))
}

proof fn lemma_pairs(headers: Seq<(String, String)>)
    ensures
        headers_view(headers) == pairs(headers),
{
    assert(headers_view(headers) =~= pairs(headers));
}

/// Just six names, in lower case, are those of headers that carry a credential.
pub proof fn law_credential_names(lower: &str, credential: bool)
    requires
        call_ensures(names_credential, (lower,), credential),
    ensures
        credential <==> lower@ == "authorization"@ || lower@ == "x-gitlab-token"@ || lower@
            == "x-hub-signature"@ || lower@ == "x-hub-signature-256"@ || lower@
            == "x-oauth-scopes"@ || lower@ == "x-accepted-oauth-scopes"@,
{
}

/// Scrubbing drops just the headers whose name in lower case is one of six, and keeps every other
/// one, name and value, in order.
pub proof fn law_scrubbing(headers: &[(String, String)], kept: Vec<(String, String)>)
    requires
        call_ensures(scrub_secrets, (headers,), kept),
    ensures
        kept@ == headers@.filter(
            |h: (String, String)|
                lowercased(h.0@) != "authorization"@ && lowercased(h.0@) != "x-gitlab-token"@
                    && lowercased(h.0@) != "x-hub-signature"@ && lowercased(h.0@)
                    != "x-hub-signature-256"@ && lowercased(h.0@) != "x-oauth-scopes"@
                    && lowercased(h.0@) != "x-accepted-oauth-scopes"@,
        ),
{
    assert((|h: (String, String)| !is_secret(h.0@)) =~= (|h: (String, String)|
        lowercased(h.0@) != "authorization"@ && lowercased(h.0@) != "x-gitlab-token"@ && lowercased(
            h.0@,
        ) != "x-hub-signature"@ && lowercased(h.0@) != "x-hub-signature-256"@ && lowercased(h.0@)
            != "x-oauth-scopes"@ && lowercased(h.0@) != "x-accepted-oauth-scopes"@));
}

/// The names and values of raw headers that are text, in order, names in lower case.
pub open spec fn readable(headers: Seq<(String, Vec<u8>)>) -> Seq<(Seq<char>, Seq<char>)> {
    headers.filter(|h: (String, Vec<u8>)| is_header_text(h.1@)).map_values(
        |h: (String, Vec<u8>)| (lowercased(h.0@), ascii_text(h.1@)),
    )
}

proof fn lemma_readable(headers: Seq<(String, Vec<u8>)>)
    ensures
        text_headers(raw_view(headers)) == readable(headers),
    decreases headers.len(),
{
    reveal(Seq::filter);
    let raw = raw_view(headers);
    if headers.len() > 0 {
        lemma_readable(headers.drop_last());
        assert(raw.drop_last() =~= raw_view(headers.drop_last()));
        assert(raw.last() == (headers.last().0@, headers.last().1@));
        assert(text_headers(raw) =~= readable(headers));
    } else {
        assert(text_headers(raw) =~= readable(headers));
    }
}

/// Of the raw headers of an answer just those are read whose value is text, every one of them, in
/// order, with the name in lower case and the value as it stands.
pub proof fn law_read_headers(headers: &Vec<(String, Vec<u8>)>, read: Vec<(String, String)>)
    requires
        call_ensures(read_headers, (headers,), read),
    ensures
        pairs(read@) == headers@.filter(|h: (String, Vec<u8>)| is_header_text(h.1@)).map_values(
            |h: (String, Vec<u8>)| (lowercased(h.0@), ascii_text(h.1@)),
        ),
{
    lemma_pairs(read@);
    lemma_readable(headers@);
}

/// What may be kept of an answer's headers: those that are text, names in lower case, but for the
/// six that carry credentials.
pub open spec fn keepable(headers: Seq<(String, Vec<u8>)>) -> Seq<(Seq<char>, Seq<char>)> {
    readable(headers).filter(
        |h: (Seq<char>, Seq<char>)|
            lowercased(h.0) != "authorization"@ && lowercased(h.0) != "x-gitlab-token"@
                && lowercased(h.0) != "x-hub-signature"@ && lowercased(h.0)
                != "x-hub-signature-256"@ && lowercased(h.0) != "x-oauth-scopes"@ && lowercased(
                h.0,
            ) != "x-accepted-oauth-scopes"@,
    )
}

proof fn lemma_keepable(headers: Seq<(String, Vec<u8>)>)
    ensures
        scrubbed_view(text_headers(raw_view(headers))) == keepable(headers),
{
    lemma_readable(headers);
    assert((|h: (Seq<char>, Seq<char>)| !is_secret(h.0)) =~= (|h: (Seq<char>, Seq<char>)|
        lowercased(h.0) != "authorization"@ && lowercased(h.0) != "x-gitlab-token"@ && lowercased(
            h.0,
        ) != "x-hub-signature"@ && lowercased(h.0) != "x-hub-signature-256"@ && lowercased(h.0)
            != "x-oauth-scopes"@ && lowercased(h.0) != "x-accepted-oauth-scopes"@));
}

proof fn lemma_end_to_end()
    ensures
        (|h: (String, String)| !is_hop_by_hop(h.0@)) == (|h: (String, String)|
            h.0@ != "host"@ && h.0@ != "content-length"@ && h.0@ != "transfer-encoding"@ && h.0@
                != "connection"@),
{
    assert((|h: (String, String)| !is_hop_by_hop(h.0@)) =~= (|h: (String, String)|
        h.0@ != "host"@ && h.0@ != "content-length"@ && h.0@ != "transfer-encoding"@ && h.0@
            != "connection"@));
}

/// A request is forwarded to its path at the real forge, with its body, with every header in order
/// but those named "host", "content-length", "transfer-encoding" and "connection", and with its own
/// method, or GET where that is none.
pub proof fn law_forwarding(state: &RecordState, request: &Request, out: ForwardRequest)
    requires
        call_ensures(RecordState::forward, (state, request), out),
    ensures
        out.url@ == state.upstream_url() + request.path@,
        out.headers@ == request.headers@.filter(
            |h: (String, String)|
                h.0@ != "host"@ && h.0@ != "content-length"@ && h.0@ != "transfer-encoding"@
                    && h.0@ != "connection"@,
        ),
        out.method@ == (if is_method_name(encode_utf8(request.method@)) {
            request.method@
        } else {
            "GET"@
        }),
        match out.body {
            Some(body) => body@ == request.body@ && body@.len() > 0,
            None => request.body@.len() == 0,
        },
{
    lemma_end_to_end();
    if is_method_name(encode_utf8(request.method@)) {
        law_methods_are_forwarded_unchanged(request.method@);
    }
}

/// A server that records forwards each request as a recording does, and stays as it was; a server
/// that replays never forwards.
pub proof fn law_server_forwards(
    server: &mut RecordedServer,
    request: &Request,
    step: ServerStep,
)
    requires
        call_ensures(RecordedServer::next, (server, request), step),
    ensures
        step is Forward <==> old(server).is_recording(),
        final(server).is_recording() == old(server).is_recording(),
        final(server).recording() == old(server).recording(),
        final(server).url() == old(server).url(),
        final(server).adapter_name() == old(server).adapter_name(),
        final(server).upstream_url() == old(server).upstream_url(),
        step matches ServerStep::Forward(out) ==> out.url@ == old(server).upstream_url()
            + request.path@ && out.headers@ == request.headers@.filter(
            |h: (String, String)|
                h.0@ != "host"@ && h.0@ != "content-length"@ && h.0@ != "transfer-encoding"@
                    && h.0@ != "connection"@,
        ) && out.method@ == (if is_method_name(encode_utf8(request.method@)) {
            request.method@
        } else {
            "GET"@
        }) && match out.body {
            Some(body) => body@ == request.body@ && body@.len() > 0,
            None => request.body@.len() == 0,
        } && final(server).left() == old(server).left(),
{
    lemma_end_to_end();
    if is_method_name(encode_utf8(request.method@)) {
        law_methods_are_forwarded_unchanged(request.method@);
    }
}

/// Whether a response is the one of an exchange.
pub open spec fn answers(reply: Reply, exchange: ExchangeView) -> bool {
    &&& reply.status == exchange.status
    &&& pairs(reply.headers@) == exchange.response_headers
    &&& reply.body@ == exchange.response_body
}

/// Whether a response says that nothing is left to replay for a request.
pub open spec fn tells_exhaustion(reply: Reply, method: Seq<char>, path: Seq<char>) -> bool {
    &&& reply.status == 500
    &&& reply.headers@.len() == 0
    &&& reply.body@ == "{\"error\":\"forge-fixture: no recorded exchange for "@ + method + " "@
        + path + "\"}"@
}

/// A server that replays answers each request with the next exchange, whatever is asked, and moves
/// on by one; with none left it says so, naming the request, and stays as it is.
pub proof fn law_server_replays(
    server: &mut RecordedServer,
    request: &Request,
    exhausted: bool,
    step: ServerStep,
)
    requires
        call_ensures(RecordedServer::is_exhausted, (&*old(server),), exhausted),
        call_ensures(RecordedServer::next, (server, request), step),
        !old(server).is_recording(),
    ensures
        exhausted <==> old(server).left().len() == 0,
        old(server).left().len() > 0 ==> (step matches ServerStep::Answer(reply) && answers(
            reply,
            old(server).left()[0],
        ) && final(server).left() == old(server).left().subrange(
            1,
            old(server).left().len() as int,
        )),
        old(server).left().len() == 0 ==> (step matches ServerStep::Answer(reply)
            && tells_exhaustion(reply, request.method@, request.path@) && final(server).left().len()
            == 0),
{
    if let ServerStep::Answer(reply) = step {
        lemma_pairs(reply.headers@);
        assert(pairs(reply.headers@).len() == reply.headers@.len());
    }
}

/// A queue answers each request with the next exchange, whatever is asked, and moves on by one;
/// with none left it says so, naming the request, and stays as it is.
pub proof fn law_queue_replays(
    queue: &mut ReplayQueue,
    method: &str,
    path: &str,
    exhausted: bool,
    reply: Reply,
)
    requires
        call_ensures(ReplayQueue::is_exhausted, (&*old(queue),), exhausted),
        call_ensures(ReplayQueue::answer, (queue, method, path), reply),
    ensures
        exhausted <==> old(queue).left().len() == 0,
        old(queue).left().len() > 0 ==> answers(reply, old(queue).left()[0]) && final(queue).left()
            == old(queue).left().subrange(1, old(queue).left().len() as int),
        old(queue).left().len() == 0 ==> tells_exhaustion(reply, method@, path@)
            && final(queue).left().len() == 0,
{
    lemma_pairs(reply.headers@);
    assert(pairs(reply.headers@).len() == reply.headers@.len());
}

/// Whether an exchange is told by its model, field for field.
pub open spec fn is_told(exchange: Exchange, view: ExchangeView) -> bool {
    &&& view.method == exchange.method@
    &&& view.path == exchange.path@
    &&& view.status == exchange.status
    &&& view.response_headers == pairs(exchange.response_headers@)
    &&& view.response_body == exchange.response_body@
}

/// Whether exchanges are told by their models, each one and in order.
pub open spec fn all_told(exchanges: Seq<Exchange>, views: Seq<ExchangeView>) -> bool {
    views.len() == exchanges.len() && forall|i: int|
        0 <= i < exchanges.len() ==> is_told(#[trigger] exchanges[i], views[i])
}

proof fn lemma_all_told(exchanges: Seq<Exchange>)
    ensures
        all_told(exchanges, exchanges_view(exchanges)),
{
    assert forall|i: int| 0 <= i < exchanges.len() implies is_told(
        #[trigger] exchanges[i],
        exchanges_view(exchanges)[i],
    ) by {
        lemma_pairs(exchanges[i].response_headers@);
    }
}

/// A queue starts with all exchanges of the fixture, in order.
pub proof fn law_queue_holds_the_fixture(file: FixtureFile, queue: ReplayQueue)
    requires
        call_ensures(ReplayQueue::new, (file,), queue),
    ensures
        all_told(file.exchanges@, queue.left()),
{
    lemma_all_told(file.exchanges@);
}

/// A server is reached at its port on this machine. With a fixture it replays all of it, in order;
/// without one it records the adapter against the real forge, from nothing.
pub proof fn law_server_start(
    port: u16,
    adapter: String,
    upstream: String,
    fixture: Option<FixtureFile>,
    server: RecordedServer,
    url: &str,
)
    requires
        call_ensures(RecordedServer::start, (port, adapter, upstream, fixture), server),
        call_ensures(RecordedServer::base_url, (&server,), url),
    ensures
        url@ == "http://127.0.0.1:"@ + decimal(port as nat),
        match fixture {
            Some(file) => !server.is_recording() && all_told(file.exchanges@, server.left()),
            None => server.is_recording() && server.adapter_name() == adapter@
                && server.upstream_url() == upstream@ && server.left().len() == 0,
        },
        server.recording().len() == 0,
{
    if let Some(file) = fixture {
        lemma_all_told(file.exchanges@);
    }
}

/// A recording starts from nothing, for the adapter and the real forge that it is given.
pub proof fn law_recording_starts_empty(adapter: String, upstream: String, state: RecordState)
    requires
        call_ensures(RecordState::new, (adapter, upstream), state),
    ensures
        state.adapter_name() == adapter@,
        state.upstream_url() == upstream@,
        state.recording().len() == 0,
{
}

/// Whether a recording grew by one exchange, at the end: the request that was answered, and the
/// answer, its status and body as they came and of its headers what may be kept.
pub open spec fn grew(
    before: Seq<ExchangeView>,
    after: Seq<ExchangeView>,
    request: Request,
    status: u16,
    headers: Seq<(String, Vec<u8>)>,
    body: Seq<char>,
) -> bool {
    &&& after.len() == before.len() + 1
    &&& forall|i: int| 0 <= i < before.len() ==> #[trigger] after[i] == before[i]
    &&& after[before.len() as int].method == request.method@
    &&& after[before.len() as int].path == request.path@
    &&& after[before.len() as int].status == status
    &&& after[before.len() as int].response_headers == keepable(headers)
    &&& after[before.len() as int].response_body == body
}

/// Capturing an answer adds just that exchange, and the request is answered just as captured.
pub proof fn law_capturing(
    state: &mut RecordState,
    request: &Request,
    status: u16,
    headers: &Vec<(String, Vec<u8>)>,
    body: String,
    reply: Reply,
)
    requires
        call_ensures(RecordState::record, (state, request, status, headers, body), reply),
    ensures
        grew(
            old(state).recording(),
            final(state).recording(),
            *request,
            status,
            headers@,
            body@,
        ),
        reply.status == status,
        pairs(reply.headers@) == keepable(headers@),
        reply.body@ == body@,
        final(state).adapter_name() == old(state).adapter_name(),
        final(state).upstream_url() == old(state).upstream_url(),
{
    lemma_keepable(headers@);
    lemma_pairs(reply.headers@);
}

/// A server that records captures each answer of the real forge and answers just as captured; a
/// server that replays captures nothing.
pub proof fn law_server_captures(
    server: &mut RecordedServer,
    request: &Request,
    status: u16,
    headers: &Vec<(String, Vec<u8>)>,
    body: String,
    reply: Option<Reply>,
)
    requires
        call_ensures(RecordedServer::record, (server, request, status, headers, body), reply),
    ensures
        reply is Some <==> old(server).is_recording(),
        match reply {
            Some(r) => grew(
                old(server).recording(),
                final(server).recording(),
                *request,
                status,
                headers@,
                body@,
            ) && r.status == status && pairs(r.headers@) == keepable(headers@) && r.body@ == body@,
            None => final(server).recording() == old(server).recording(),
        },
        final(server).left() == old(server).left(),
        final(server).is_recording() == old(server).is_recording(),
        final(server).url() == old(server).url(),
        final(server).adapter_name() == old(server).adapter_name(),
        final(server).upstream_url() == old(server).upstream_url(),
{
    lemma_keepable(headers@);
    if let Some(r) = reply {
        lemma_pairs(r.headers@);
    }
}

/// The fixture of a recording holds all of it, in order, under the adapter's name, and no header in
/// it carries a credential.
pub proof fn law_fixture_holds_the_recording(
    state: &RecordState,
    file: FixtureFile,
    i: int,
    j: int,
)
    requires
        call_ensures(RecordState::fixture, (state,), file),
    ensures
        file.adapter@ == state.adapter_name(),
        all_told(file.exchanges@, state.recording()),
        0 <= i < file.exchanges@.len() && 0 <= j < file.exchanges@[i].response_headers@.len()
            ==> carries_no_credential(file.exchanges@[i].response_headers@[j].0@),
{
    lemma_all_told(file.exchanges@);
    if 0 <= i < file.exchanges@.len() && 0 <= j < file.exchanges@[i].response_headers@.len() {
        let headers = file.exchanges@[i].response_headers@;
        assert(file.recording()[i].response_headers == headers_view(headers));
        assert(headers_view(headers)[j].0 == headers[j].0@);
    }
}

/// Whether a header name, in any case, is none of the six that carry credentials.
pub open spec fn carries_no_credential(name: Seq<char>) -> bool {
    &&& lowercased(name) != "authorization"@
    &&& lowercased(name) != "x-gitlab-token"@
    &&& lowercased(name) != "x-hub-signature"@
    &&& lowercased(name) != "x-hub-signature-256"@
    &&& lowercased(name) != "x-oauth-scopes"@
    &&& lowercased(name) != "x-accepted-oauth-scopes"@
}

/// A server that records gives the fixture of all that it recorded, without credentials; a server
/// that replays gives none.
pub proof fn law_server_fixture(
    server: &RecordedServer,
    file: Option<FixtureFile>,
    i: int,
    j: int,
)
    requires
        call_ensures(RecordedServer::fixture, (server,), file),
    ensures
        file is Some <==> server.is_recording(),
        file matches Some(f) ==> f.adapter@ == server.adapter_name() && all_told(
            f.exchanges@,
            server.recording(),
        ) && (0 <= i < f.exchanges@.len() && 0 <= j < f.exchanges@[i].response_headers@.len()
            ==> carries_no_credential(f.exchanges@[i].response_headers@[j].0@)),
{
    if let Some(f) = file {
        lemma_all_told(f.exchanges@);
        if 0 <= i < f.exchanges@.len() && 0 <= j < f.exchanges@[i].response_headers@.len() {
            let headers = f.exchanges@[i].response_headers@;
            assert(f.recording()[i].response_headers == headers_view(headers));
            assert(headers_view(headers)[j].0 == headers[j].0@);
        }
    }
}

/// A copy of an exchange is told as the exchange is, and so is each one of a copied fixture, which
/// keeps its adapter. A fixture is empty until it is filled.
pub proof fn law_copies(
    exchange: &Exchange,
    copy: Exchange,
    file: &FixtureFile,
    same: FixtureFile,
    empty: FixtureFile,
    view: ExchangeView,
    views: Seq<ExchangeView>,
)
    requires
        call_ensures(Exchange::clone, (exchange,), copy),
        call_ensures(FixtureFile::clone, (file,), same),
        call_ensures(FixtureFile::default, (), empty),
    ensures
        is_told(*exchange, view) ==> is_told(copy, view),
        all_told(file.exchanges@, views) ==> all_told(same.exchanges@, views),
        same.adapter@ == file.adapter@,
        empty.adapter@.len() == 0,
        empty.exchanges@.len() == 0,
{
    lemma_pairs(exchange.response_headers@);
    lemma_pairs(copy.response_headers@);
    lemma_all_told(file.exchanges@);
    lemma_all_told(same.exchanges@);
    if all_told(file.exchanges@, views) {
        let told = file.recording();
        assert(same.recording() == told);
        assert forall|i: int| 0 <= i < views.len() implies views[i] == told[i] by {
            assert(is_told(file.exchanges@[i], views[i]));
            assert(is_told(file.exchanges@[i], told[i]));
        }
        assert(views =~= told);
    }
}

} // verus!
