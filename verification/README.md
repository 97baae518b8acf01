# whisper_sync

Fleet agents exchange short, ephemeral "whispers" through a PLATO room. This
crate is the protocol's logic, verified with Verus:

- `src/clock.rs` — UTC instants (`Timestamp`, always inside chrono's range),
  the clock readings, and whole-second differences as chrono counts them.
- `src/whisper.rs` — whisper kinds, default lifetimes, expiry, tags, and the
  clock-based identifiers.
- `src/filter.rs` — which whispers are relevant to an agent.
- `src/delivery.rs` — delivery modes and the service that filters batches.
- `src/plato_transport.rs` — the PLATO endpoint: URLs, tile shapes, status
  judgement and error texts.
- `src/inbox.rs` — the inbox's poll request, what it keeps of an answer, and
  the listening loop's decision.
- `src/content.rs` — turning command-line JSON content into a whisper kind.
- `src/numfmt.rs` — hexadecimal and decimal renderings.

`app/` is the command-line program around it: HTTP through reqwest, JSON
through serde, the tokio runtime, clap and tracing.
