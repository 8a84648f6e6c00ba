# termstage-core

The tunnel between the web side and the runtime side of a shared terminal: semantic
frames, their JSON form, and the bridge that turns frames into runtime commands and
runtime output into frames. The library under `src/` is written in Verus, and its
contracts and laws are proved there. `app/` adds the traits of other crates (`serde`,
`thiserror`, `Debug`) on mirrors of the library's types.

- `src/protocol.rs`, `src/runtime.rs`: the values that frames and commands carry.
- `src/tunnel.rs`: bounded payloads, frames, codec and transport boundaries, the bridge.
- `src/wire.rs`: which JSON tree stands for a frame, and which frame a tree stands for.
- `src/members.rs`, `src/reader.rs`, `src/writer.rs`: from trees to frames and back.
- `src/refusal.rs`, `src/inspect.rs`, `src/verdict.rs`: what is wrong with a tree that is
  no frame.
- `src/json.rs`, `src/errors.rs`, `src/octets.rs`: JSON text, its errors and shared
  buffers, with what is trusted of `serde_json`, `serde` and `bytes`.
- `src/codec.rs`: the JSON codec.
- `src/round_trip.rs`, `src/laws.rs`: what holds of the whole.
