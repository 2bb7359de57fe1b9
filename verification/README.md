# sentinelld

The decisions of an endpoint-protection daemon, written in Verus. The library
decides; it reads no clock, no file and no pipe. Time, identifiers and what the
machine reports come in as arguments, and what is to be done comes out as plain
values. Every function states in its contract what it returns, and the contracts
are proved. Of a number, secret or identifier that is drawn at random, only what
holds of every draw is stated.

## Layout

- `src/text.rs`, `src/ranking.rs`: texts and stable ranking.
- `src/activity.rs`, `src/telemetry.rs`, `src/stats.rs`: what is logged, recorded
  and reported.
- `src/engine.rs`, `src/update.rs`: the life of the signature engine, the age of
  its signatures, their updates.
- `src/scan/`: verdicts, the single scan slot, the folder walk, what a scan
  costs.
- `src/idle_scanner/`: when the background scanner may work, and on what.
- `src/memory_scanner/`: the walk over a process's memory and its budget.
- `src/footprint/`: memory pressure, baselines, trimming.
- `src/quarantine.rs`, `src/resilience.rs`, `src/watch.rs`, `src/boot.rs`,
  `src/config.rs`: the vault's rules, the helpers, the watched directories, the
  startup.
- `src/ipc/`: who may connect, how often, with which secret and token, and what
  a request gets.
- `tests/`: examples on concrete values.
- `app/`: the process around the library: pipe, threads, files, Windows calls.

## What is trusted

The library calls `rand`, `uuid` and `serde_json`, and a few functions of the
standard library, through small wrappers. Each wrapper's comment says what is
taken on trust of the function behind it.
