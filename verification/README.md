# filament

The decisions of a peer-to-peer file transfer, written in Rust and proved with Verus: which
peer is the other side of a typed code, which offers are taken and where their bytes go, when
a file counts as delivered, how two devices come to remember each other, and when either side
is done.

The library does no input or output. It is told what happened and says what to do, over plain
values and JSON frames; each function's contract says which answer belongs to which input.
The program around it performs the answers.

## Layout

- `src/` is the library.
  - `recv_session`, `send_session`: a receive and a send as a whole, event by event.
  - `candidates`, `offer`, `offer_flow`, `recv_files`, `assembly`, `coverage`, `finish`: from an
    offer to a verified file on the receiving side.
  - `setup`, `receive_opening`, `send_opening`: the questions before a receive and a send.
  - `send_loop`, `outgoing`, `stream_plan`, `ack_window`: from a path to a confirmed file on the
    sending side.
  - `pairing`, `remember`, `fleet_links`, `renewal_lifecycle`, `enrolment`, `requests`: who knows
    whom, and who may do what.
  - `presence`, `channels`, `reconcile`, `signaling`, `cadence`, `daemon`, `console`,
    `runtime_support`: staying reachable, and the operator.
  - `streams`, `terminals`, `bootstrap`, `overlay_links`: services beside files.
  - `frame`, `protocol`, `dispatch`: what frames hold and which frame is which.
  - `digest`, `hexadecimal`, `text`, `keyed`, `shared_defs`: the common ground.
- `tests/` runs the library from outside.
- `app/` is the program around it: files, links, timers and the terminal.

Calls into other crates (JSON values, SHA-256, hexadecimal and base64 text, random bytes) stand
in small wrappers whose contracts are believed, each with a comment that says what it claims.
