# screen-mirror

The command layer of a screen-mirroring application: sessions of a sender and of a receiver, the
loops that drain their events, the coordinators that restore a lost connection, and the workers
that rebuild a pipeline while its session goes on.

`src/` is the library. Every item in it is verified with Verus. It owns no thread, socket or
clock: each loop runs on a *host*, a value of the surrounding program whose methods take it and
give it back, and its contract says which calls it makes, in which order, and that it makes no
others (`src/trace.rs`). What the surrounding program keeps (threads, stop flags, callbacks,
channels), the library knows by number.

| modules | what they hold |
| --- | --- |
| `validation`, `errors`, `text` | arguments of a session, errors and their texts |
| `events`, `channel` | values that pass between the parts, and frames to the frontend |
| `sender`, `stream` | starting, stopping and looking at a session |
| `sender_build`, `stream_build` | the stages in which a pipeline is built |
| `sender_drain`, `sender_transport`, `sender_signaling`, `stream_drain` | the drains |
| `coordinator`, `supervision`, `mdns_reset` | what is done about a lost connection |
| `rebuild`, `sender_rebuild`, `stream_rebuild` | the rebuild workers |
| `mux` | from packets to fMP4 segments |
| `qsv_observation`, `smoke` | telemetry, capture smoke test |
| `nonce`, `flags` | session nonces, and numbers of stop flags |
| `trace`, `turns` | rows of calls and of turns, by which the loops are described |

Public proof functions whose names begin with `law_` state what holds of several functions
together.

`app/` is the program around the library: threads, sockets, adapters and the Tauri commands.
`tests/` runs the library on simulated hosts.
