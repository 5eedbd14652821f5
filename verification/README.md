# kubeport

Exposes a local service through a public server: the client keeps one control connection to
the server, the server opens a public port for the client's service, and every public
connection is tunnelled over the control connection as a channel of its own.

Layout:

- `src/` — the verified library (Verus):
  - `protocol/stream.rs`: length-prefixed framing of packets (the length prefix that the
    program's reader decodes, and the frame that its writer sends), with the proof that parsing
    a byte stream of frames gives back the framed packets in order;
  - `protocol/messages.rs`: the packets client and server exchange;
  - `client.rs`, `server.rs`: the decisions of both sides on each packet and each read, with the
    proofs that the handshake agrees and that each step hands a data message's bytes, unchanged,
    to its channel;
  - `management/server_state.rs`: the issuer of unique channel identifiers;
  - `sync/`: channel hubs keyed by channel identifier, which hand out the channel held for an
    identifier and never replace it, and the shutdown coordinator;
  - `commons.rs`: the websocket proxy's channel distributor and its listener's decisions;
  - `httptools.rs`, `cli.rs`: status lines and the command line's types.
- `app/` — the program: sockets, tasks, logging, the rkyv and bincode encodings, clap.
- `tests/` — tests of the library.
