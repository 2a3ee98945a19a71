//! The fixed sizes of the ten scenarios: database and table names, pre-seed
//! row counts, warm-up and timed iteration counts.
use vstd::prelude::*;

verus! {

/// Database every scenario works in.
pub const DB: &'static str = "bench";

/// Main table.
pub const TBL: &'static str = "t";

/// Second table, joined against the main one.
pub const TBL2: &'static str = "u";

/// Schema of the main table, for layers that create tables through SQL.
pub const CREATE_TABLE_SQL: &'static str = "CREATE TABLE bench.t (id bigint, name string, x double);";

/// Rows seeded for point lookups, round trips, the interactive pair and updates.
pub const SEED_SMALL: usize = 1_000;

/// Rows seeded for range scans and aggregations.
pub const SEED_LARGE: usize = 10_000;

/// Rows seeded into each of the two joined tables.
pub const SEED_JOIN: usize = 500;

/// Untimed iterations before the timed loop of the uniform scenarios.
pub const N_WARMUP: usize = 1_000;

/// Timed point lookups.
pub const N_HEADLINE: usize = 25_000;

/// Timed single-row inserts.
pub const N_INSERT: usize = 10_000;

/// Sizes of the scanned id ranges, one sample set each.
pub const N_RANGE_K: [i64; 4] = [1, 100, 1_000, 10_000];

/// Timed range scans per range size.
pub const N_RANGE_RUNS: usize = 125;

/// Untimed range scans per range size.
pub const N_RANGE_WARMUP: usize = 250;

/// Timed single-cell round trips.
pub const N_ROUND_TRIP: usize = 10_000;

/// Row literals in the bulk insert statement.
pub const N_BULK: usize = 10_000;

/// Timed bulk inserts, each into a fresh database.
pub const N_BULK_RUNS: usize = 100;

/// Untimed bulk inserts.
pub const N_BULK_WARMUP: usize = 10;

/// Timed database opens.
pub const N_OPEN: usize = 200;

/// Untimed database opens.
pub const N_OPEN_WARMUP: usize = 20;

/// Timed insert-and-select pairs.
pub const N_INTERACTIVE: usize = 1_000;

/// Timed aggregations per aggregate.
pub const N_AGG_RUNS: usize = 1_000;

/// Timed joins.
pub const N_JOIN_RUNS: usize = 125;

/// Untimed joins.
pub const N_JOIN_WARMUP: usize = 250;

/// Timed updates.
pub const N_UPDATE: usize = 10_000;

/// Timed deletes.
pub const N_DELETE: usize = 5_000;

/// Rows seeded for the delete phase: the untouched small table, then one
/// row for each untimed and each timed delete.
pub const SEED_MUTATE: usize = SEED_SMALL + N_DELETE + N_WARMUP;

} // verus!
