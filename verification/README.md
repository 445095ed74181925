# rench

An HTTP benchmarking tool. `src/` is its computing core, verified with Verus:
parsing of durations and headers, the run configuration, the per-worker and
merged statistics, and the choices the report makes (units, sections).
The shared request budget is an atomic counter: its one-step rule
(`take_one`) is verified and a model of sequential claims is proved, but
that it grants at most its budget under concurrent claims rests on
`AtomicU64::fetch_update` and is not proved. `app/` is the program around it: the command line,
the tokio/hyper/rustls client, the worker loop, and the coloured terminal
output, including everything that needs floating point.

- `src/text.rs` — Unicode white space and trimming
- `src/cli.rs` — options, `parse_duration`, decimal numbers
- `src/duration.rs` — `std::time::Duration` through trusted wrappers
- `src/histogram.rs` — the `hdrhistogram` latency histogram, as a multiset of bucket values
- `src/request.rs` — URIs, methods and bodies from `http` and `bytes`
- `src/engine.rs` — `BenchConfig::from_args`, header lines, rate shares
- `src/stats.rs` — worker counters, outcomes, `AggregatedStats::merge`
- `src/counter.rs` — live counters, and the request budget (see above)
- `src/reporter.rs` — units and lines of the report
