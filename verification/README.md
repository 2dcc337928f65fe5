# fory_envelope

The envelopes in which the messages of an RPC service travel when they are
written with [Fory](https://fory.apache.org/): requests, cancellations, responses
and server errors, with their trace contexts and deadlines. The library is
written in Verus and its contracts are proved.

- `src/` is the library. `envelope.rs` holds the envelopes and how they are
  written and read, `convert.rs` the way to and from the messages that a program
  holds, `registration.rs` and `wire_id.rs` the identifiers of the types,
  `encoding.rs` the bytes, `laws.rs` what holds of all of it together. The calls
  into Fory and the clock are in `codec.rs` and `clock.rs`; their contracts are
  the ones that are not proved.
- `tests/` runs it against Fory.
- `app/` gives the envelopes Fory's own traits and registers them.
