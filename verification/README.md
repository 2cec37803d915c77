# spark-debugger

A watchdog and MCP debugger for SparkOS services, with its decision logic
verified in Verus.

- `src/` is the verified library: the audit verdicts (`audit`), the
  watchdog's failure bookkeeping (`watchdog`), MCP routing and JSON-RPC
  framing (`mcp`, `json`), incident records (`reporter`), the command line's
  mode choice and report text (`cli`), the text helpers they share (`text`),
  and the trusted calls into std, chrono, uuid and serde_json (`outside`).
- `app/` is the program around it: HTTP probes, directory listings,
  `cargo check`, the stdio loop, SQLite and the clock-driven daemon loop.
- `tests/` exercises the library on concrete values.
