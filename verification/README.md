# mirakc

Timeshift recording, on-air program tracking and event feeding of a DVR backend.

- `src/` is the library. It is written in Verus: what it decides is stated in contracts and proved.
  - `timeshift` keeps the recorders: the ring of chunks that each of them writes, the records of the
    programs in the ring, the streams that clients read, and the activation of recorders when
    services become available.
  - `mpeg_ts_stream` holds MPEG-TS streams, the ranges of records that they carry, and the pipe to a
    writer.
  - `onair` follows the on-air programs of another server.
  - `sse` names and orders the events that are fed to clients.
  - `template` and `filter` render the commands that a stream is piped into. `tag` tells which
    templates can be rendered: those that load no partial and never write their variables as a
    whole.
- `app/` reads, writes, waits and talks to the network, and asks the library what to do next.
- `tests/` runs the library.

The records of a recorder live in an `indexmap::IndexMap`, and commands are rendered by `mustache`.
What is relied on of these two crates is stated next to the calls, in `timeshift/records.rs` and
`template.rs`.
