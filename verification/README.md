# exchange_backend

The rules of the North Neeladesh telephone exchange, written in Verus: the
wire formats the cabinet and the frontends speak, the switchboard's physical
rules, the authored story graphs and their validation, the operator desk's
state machine, and the pure parts of the local voice pipeline. Each public
function states what it returns in its `ensures`; the `law_*` proof functions
state what holds across calls.

Layout:

- `src/protocol.rs`, `src/ports.rs`, `src/framing.rs`, `src/rtp.rs`: message
  types, jack names, frame and datagram headers, RTP packets.
- `src/hardware.rs`, `src/config.rs`: directory numbers and pages, cord
  topologies that form circuits, lamps, printer, configuration checks.
- `src/story.rs`, `src/walk.rs`, `src/stories/`: authored story content, its
  validation and compilation into a graph (with the depth-first search that
  finds cycles and unreachable nodes), and the registered stories.
- `src/exchange.rs`: the exchange's state machine for one input: message
  checks, directory and topology checks, ring-generator gating, the routing
  step of the call in focus, expiry, the shift's ledger and summary, and the
  random placement of calls.
- `src/cabinet.rs`, `src/cabinet_wire.rs`: the operator desk's core and its
  line protocol.
- `src/voice.rs`, `src/debug_http.rs`, `src/scan.rs`, `src/text.rs`: audio
  buffers, WAV and chunked HTTP bodies, the debug surface's requests and
  replies, and the text scanning they share.
- `app/`: the programs around the library (sockets, threads, the audio
  device, serde copies of the message types).
- `tests/`: the library's tests.
