# otterbrix_bench

Shared machinery of a benchmark suite that measures the overhead of Rust
layers over the otterbrix database engine: raw FFI bindings, a safe wrapper,
and SeaORM and sqlx adapters. Ten scenarios (point lookups, inserts, range
scans, round trips, a bulk insert, database opens, an interactive
insert-and-select pair, aggregations, a join, updates and deletes) run on each
layer and write one CSV of nanosecond latencies per sample set.

The library in `src/` is written in Verus and verified:

- `scenarios` — the fixed sizes of the scenarios.
- `plan` — run plans (untimed, then timed iterations), the rows and ids each
  iteration touches, and proofs that every update and delete hits a seeded
  row, that deletes never repeat, that range sizes fit the table, and that
  the dumped data streams cover every scenario.
- `data` — names and lookup ids as successive draws from ChaCha8 generators
  seeded with fixed values (shorter streams are prefixes of longer ones), and
  the binary encoding of the dumps read by the C benchmarks, with proofs that
  each record reads back as what was written.
- `sql` — the statements each scenario sends, including the bulk insert.
- `names` — program names, sample-set names (proved distinct), the mode
  argument of the mutate programs, and the temporary directory prefixes.
- `csv` — the results directory and the CSV text of a sample set, with a
  proof that every line reads back as its sample.
- `text`, `paths` — decimal rendering (with its round trip), little-endian
  bytes, and path operations.

`app/` holds the programs themselves: argument handling, the row stream's
float column, temporary directories, the calls into the engine layers, timing
and file output.
