# verbatim

The decision-making core of the Verbatim screen reader, written in Verus.
Every function in `src/` is verified, except a few small wrappers marked
`#[verifier::external_body]` that make one outside call each: the four clock
readings in `src/clock.rs`, `String::push`, and the JSON, `{:?}` and base64
calls of the harness. Their contracts are trusted, not proved, and the clock
readings have none. Of the verified functions, all but the two clock readers
built on them (`now_ms` and `unix_seconds_now`, whose results depend on the
time of the call) carry a contract that states what they return.

- `src/arbitration.rs`: per-window choice between the UIA and MSAA backends,
  with the probe-verdict cache.
- `src/supervisor.rs`: the supervisor's bookkeeping of outposts and the focus
  listener: spawn generations, pending focus facts, idle retirement and the
  wedge (kill and respawn) policy.
- `src/protocol.rs`, `src/runtime.rs`, `src/query_pool.rs`, `src/launch.rs`:
  the outpost's wire facts, its runtime decisions, its query pool's watchdog
  and its command line.
- `src/speech/`: settings, the settings host and its commit/revert mirror, the
  synthesizer registry, the priority lanes of the speech queue and the
  presentation stage.
- `src/synth/`: the pure parts of the capture and OneCore synthesizers (WAV
  parsing, prosody percentages, settings).
- `src/uia/`: UIA control types and states mapped to roles and states, and the
  node-id registry.
- `src/harness/`: the VM test harness's text handling, the `vm` verbs and the
  step order of the `test` verb, and the `ci` command's platform-neutral
  dependency check.
- `src/text.rs`, `src/clock.rs`: shared character helpers and clock readings.

`app/` holds what the library leaves to its callers: pipes and message
framing, the speech pipeline's threads, floating-point prosody, the query
pool's threads, the `test` verb's runner loop, and process and file access
for the harness and `ci`.
`tests/` exercises the library through its public API.
