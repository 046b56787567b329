# forge

One contract for the code-hosting forges that cross-repo automation works with, and the gateway
that serves it. The gateway holds no credential of its own: the caller's token travels in the
metadata of each call, so every operation runs as the caller.

The library in `src/` decides everything and reaches no network; what it decides is stated in
contracts and proved with Verus.

- `gateway`: which operation a request asks for, on which adapter, and what is answered.
- `gitlab`: the REST v4 requests of each GitLab operation and what follows from the answers.
- `recorded`: fixtures of HTTP exchanges, recorded with credentials scrubbed and replayed in order.
- `wire`: the part of HTTP/1.1 that the fixture server speaks.
- `encoding`: what percent-encoding of address parts guarantees.
- `model`, `rest`, `text`: the values, requests and text operations that the others share.
- `outside`: contracts of the functions of std and of other crates, which are taken on trust.

`app/` holds the sockets, files, JSON and gRPC plumbing around it, and `tests/` runs the library on
concrete values.
