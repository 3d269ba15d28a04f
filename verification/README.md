# telemetry-core

The telemetry contract of a CME/FIX-style trading system, verified with
Verus.

`src/` is the library; every function in it carries a contract that Verus
proves:

- `events`, `ids`, `timestamps`, `enums`: the event model. Doubles are held
  by their IEEE-754 bit pattern (`ieee::Ieee64`) and compared exactly as
  IEEE-754 compares them; times are seconds and nanoseconds since the Unix
  epoch; UUIDs are their 128-bit values.
- `validate`: the deterministic validator, specified error by error.
- `writer`: the validating JSONL framer (validate, encode, one line per
  record, append-only), with laws about runs of writes.
- `kpi`: the KPI accumulator of the trace viewer, with laws tying it to the
  whole trace (first fill, last full fill, counts, latencies).
- `telemetry`: the telemetry session and `measure_us`.
- `config`, `quant`, `cache`: the computing parts of the runtime's
  configuration, API requests and cache keys.

`app/` is the command-line front end: serde/JSON Schema copies of the event
types (`wire`), file I/O, the golden-trace simulator, the KPI report, and the
trading runtime (PostgreSQL, Redis, HTTP, metrics).

`tests/` runs the library on concrete traces.
