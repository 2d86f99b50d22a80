# signature_collector

Threshold signature collection for SSV operators, with its decisions proved
in Verus, together with the field decoders and fixture checks that go with
the message types.

Layout:

- `src/collector_state.rs`: the per-validator collector as a state machine
  over an abstract model (`CollectorModel`); outside work (combining and
  verifying signatures, looking up share keys, notifying waiting tasks) is
  requested through `CollectorAction` and its result handed back.
- `src/collector_laws.rs`: properties of the collector over any sequence of
  events (the invariant, persistence of the reconstructed signature, first
  share wins, late shares and late registrants, the fallback).
- `src/manager.rs`: the registries of running collectors and pending
  committee batches (with the batching law over any run of additions),
  cleanup cutoffs, error mapping.
- `src/decode.rs`, `src/deserializers.rs`: hex, decimal and base64 field
  decoding with exact contracts (`hex`, `base64` and `str::parse` are called
  behind trusted wrappers).
- `src/consensus_fixtures.rs`, `src/fixture_encoding.rs`, `src/error_codes.rs`:
  the checks run by the consensus fixtures and the preparation of fixture
  objects for encoding.
- `app/`: serde adapters and copies of the fixture types, and the tokio
  driver of the collectors.
