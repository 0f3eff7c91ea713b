# uds-ecu-rust

A small stateful UDS (ISO 14229) diagnostic ECU, verified with Verus.

- `src/ecu.rs`: the ECU state and `handle_request`, which answers one request
  (DiagnosticSessionControl, ReadDataByIdentifier for 0xF190, SecurityAccess
  level 1 seed/key) and updates the state. Its contract is the spec function `step`.
- `src/sequence.rs`: `replay_sequence`, which replays recorded request sequences
  (records of action, big-endian length and payload; RESET restarts the ECU,
  unknown actions are skipped, an incomplete record ends the replay), with laws
  about records, resets and concatenation.
- `src/laws.rs`: properties of the handler over all states and requests: the
  reachable-state invariant, the response shape, access control of the seed/key
  exchange and of the 0xF190 read, and that refused requests change nothing.
- `tests/`: scenarios and edge cases.
- `app/main.rs`: the ECU process, serving requests over ISO-TP on `vcan0`.
