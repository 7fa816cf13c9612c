# paras-inherent-benchmarking

Builds the worst case for the parachains inherent of a relay chain: a block in which as many
candidates as possible are disputed. The library is verified with Verus.

- `src/` holds the library. `scenario` takes a host configuration to the finished inherent;
  `sizes`, `setup`, `validators`, `backing`, `availability` and `disputes` hold its parts; `blocks`
  decides how the chain is run forward; `inherent` checks what storage shows in the end. `storage`
  and `primitives` hold the data. `bits` and `crypto` hold the calls into `bitvec`, `sp-core`,
  `sp-runtime` and `frame-benchmarking`, with what is taken on trust of each.
- `tests/` runs the library.
- `app/` runs the scenario on a runtime with the parachains pallets.
