//! Run plans: which scenario runs on which layer, how many untimed and timed
//! iterations it makes, which rows and ids each iteration touches, and the
//! names of the programs and sample sets.
use vstd::prelude::*;

use crate::data::{lemma_lookup_stream_prefix, lookup_ids, lookup_stream};
use crate::scenarios::{
    N_AGG_RUNS, N_BULK, N_BULK_RUNS, N_BULK_WARMUP, N_DELETE, N_HEADLINE, N_INSERT,
    N_INTERACTIVE, N_JOIN_RUNS, N_JOIN_WARMUP, N_OPEN, N_OPEN_WARMUP, N_RANGE_K, N_RANGE_RUNS,
    N_RANGE_WARMUP, N_ROUND_TRIP, N_UPDATE, N_WARMUP, SEED_JOIN, SEED_LARGE, SEED_MUTATE,
    SEED_SMALL,
};


verus! {

/// The way a benchmark reaches the engine.
#[derive(Clone, Copy, Debug, PartialEq, Eq, Structural)]
pub enum Layer {
    /// Raw FFI bindings.
    Sys,
    /// The safe Rust wrapper.
    Otterbrix,
    /// The SeaORM adapter over the safe wrapper.
    SeaOrm,
    /// The sqlx adapter over the safe wrapper.
    Sqlx,
}

/// The ten scenarios.
#[derive(Clone, Copy, Debug, PartialEq, Eq, Structural)]
pub enum Scenario {
    Headline,
    Insert,
    RangeScan,
    RoundTrip,
    BulkInsert,
    Open,
    Interactive,
    Aggregation,
    Join,
    Mutate,
}

/// The two phases of the mutate scenario, each run in a process of its own.
#[derive(Clone, Copy, Debug, PartialEq, Eq, Structural)]
pub enum MutateMode {
    Update,
    Delete,
}

/// The two aggregates of the aggregation scenario.
#[derive(Clone, Copy, Debug, PartialEq, Eq, Structural)]
pub enum Aggregate {
    Sum,
    Max,
}

/// Which sample set of a scenario: the only one, one range size, one
/// aggregate, or one mutate phase.
#[derive(Clone, Copy, Debug, PartialEq, Eq, Structural)]
pub enum Variant {
    Whole,
    RangeSize(i64),
    Aggregate(Aggregate),
    Mutation(MutateMode),
}

/// Whether a scenario is defined on a layer: the interactive pair needs a
/// user connection, which only the SeaORM and sqlx adapters have.
pub open spec fn runs_on(s: Scenario, l: Layer) -> bool {
    s == Scenario::Interactive ==> (l == Layer::SeaOrm || l == Layer::Sqlx)
}

/// Whether `v` names one of the sample sets of `s`.
pub open spec fn fits(s: Scenario, v: Variant) -> bool {
    match v {
        Variant::Whole => s != Scenario::RangeScan && s != Scenario::Aggregation && s
            != Scenario::Mutate,
        Variant::RangeSize(k) => s == Scenario::RangeScan && N_RANGE_K@.contains(k),
        Variant::Aggregate(_) => s == Scenario::Aggregation,
        Variant::Mutation(_) => s == Scenario::Mutate,
    }
}

/// Every scenario but the interactive pair runs on every layer; the
/// interactive pair runs on the SeaORM and sqlx adapters and on neither the
/// raw bindings nor the safe wrapper.
pub proof fn lemma_layers_of_scenarios()
    ensures
        forall|s: Scenario, l: Layer| s != Scenario::Interactive ==> #[trigger] runs_on(s, l),
        runs_on(Scenario::Interactive, Layer::SeaOrm),
        runs_on(Scenario::Interactive, Layer::Sqlx),
        !runs_on(Scenario::Interactive, Layer::Sys),
        !runs_on(Scenario::Interactive, Layer::Otterbrix),
{
}

/// Whether `s` runs on `l`.
pub fn scenario_runs_on(s: Scenario, l: Layer) -> (r: bool)
    ensures
        r == runs_on(s, l),
{
    match s {
        Scenario::Interactive => match l {
            Layer::SeaOrm | Layer::Sqlx => true,
            _ => false,
        },
        _ => true,
    }
}

/// Which phase of a run an iteration belongs to.
#[derive(Clone, Copy, Debug, PartialEq, Eq, Structural)]
pub enum Phase {
    Warmup,
    Timed,
}

/// One iteration of a run: its phase and its index within the phase.
#[derive(Clone, Copy, Debug, PartialEq, Eq, Structural)]
pub struct Step {
    pub phase: Phase,
    pub index: usize,
}

/// A run: `warmup` untimed iterations, then `timed` iterations that each
/// leave one sample.
#[derive(Clone, Copy, Debug, PartialEq, Eq, Structural)]
pub struct RunPlan {
    pub warmup: usize,
    pub timed: usize,
}

impl RunPlan {
    /// The number of iterations.
    pub open spec fn total(self) -> int {
        self.warmup + self.timed
    }

    /// The iteration at position `pos` of the run, if the run is that long.
    pub open spec fn step_at(self, pos: int) -> Option<Step> {
        if 0 <= pos < self.warmup {
            Some(Step { phase: Phase::Warmup, index: pos as usize })
        } else if self.warmup <= pos < self.warmup + self.timed {
            Some(Step { phase: Phase::Timed, index: (pos - self.warmup) as usize })
        } else {
            None
        }
    }

    /// The position of an iteration in the run.
    pub open spec fn position_of(self, step: Step) -> int {
        match step.phase {
            Phase::Warmup => step.index as int,
            Phase::Timed => self.warmup + step.index,
        }
    }

    /// The iteration at position `pos`, or `None` once the run is over.
    pub fn step(&self, pos: usize) -> (r: Option<Step>)
        ensures
            r == self.step_at(pos as int),
    {
        if pos < self.warmup {
            Some(Step { phase: Phase::Warmup, index: pos })
        } else if pos - self.warmup < self.timed {
            Some(Step { phase: Phase::Timed, index: pos - self.warmup })
        } else {
            None
        }
    }
}

/// Walking positions `0, 1, 2, ...` visits every untimed iteration, then
/// every timed one, each exactly once, and then stops; so a run leaves
/// exactly `timed` samples.
pub proof fn lemma_plan_walk(plan: RunPlan)
    ensures
        forall|pos: int|
            0 <= pos < plan.total() ==> (#[trigger] plan.step_at(pos) matches Some(step) && plan.position_of(step) == pos),
        forall|pos: int| pos >= plan.total() ==> #[trigger] plan.step_at(pos) is None,
        forall|i: int|
            0 <= i < plan.warmup ==> #[trigger] plan.step_at(i) == Some(
                Step { phase: Phase::Warmup, index: i as usize },
            ),
        forall|i: int|
            0 <= i < plan.timed ==> #[trigger] plan.step_at(plan.warmup + i) == Some(
                Step { phase: Phase::Timed, index: i as usize },
            ),
        forall|p: int, q: int|
            0 <= p < q < plan.total() ==> #[trigger] plan.step_at(p) != #[trigger] plan.step_at(q),
{
    assert forall|p: int, q: int|
        0 <= p < q < plan.total() implies #[trigger] plan.step_at(p) != #[trigger] plan.step_at(q) by {
        let sp = plan.step_at(p)->0;
        let sq = plan.step_at(q)->0;
        assert(plan.position_of(sp) == p);
        assert(plan.position_of(sq) == q);
    }
}

/// The iteration counts of each sample set.
pub open spec fn plan_of(s: Scenario, v: Variant) -> RunPlan {
    match s {
        Scenario::Headline => RunPlan { warmup: N_WARMUP, timed: N_HEADLINE },
        Scenario::Insert => RunPlan { warmup: N_WARMUP, timed: N_INSERT },
        Scenario::RangeScan => RunPlan { warmup: N_RANGE_WARMUP, timed: N_RANGE_RUNS },
        Scenario::RoundTrip => RunPlan { warmup: N_WARMUP, timed: N_ROUND_TRIP },
        Scenario::BulkInsert => RunPlan { warmup: N_BULK_WARMUP, timed: N_BULK_RUNS },
        Scenario::Open => RunPlan { warmup: N_OPEN_WARMUP, timed: N_OPEN },
        Scenario::Interactive => RunPlan { warmup: N_WARMUP, timed: N_INTERACTIVE },
        Scenario::Aggregation => RunPlan { warmup: N_WARMUP, timed: N_AGG_RUNS },
        Scenario::Join => RunPlan { warmup: N_JOIN_WARMUP, timed: N_JOIN_RUNS },
        Scenario::Mutate => match v {
            Variant::Mutation(MutateMode::Delete) => RunPlan { warmup: N_WARMUP, timed: N_DELETE },
            _ => RunPlan { warmup: N_WARMUP, timed: N_UPDATE },
        },
    }
}

/// The documented iteration counts of every sample set, as untimed then
/// timed iterations: the long uniform runs warm up with 1 000 iterations,
/// the heavy ones with fewer, and each run writes exactly its documented
/// number of samples.
pub proof fn lemma_documented_run_sizes()
    ensures
        forall|v: Variant|
            fits(Scenario::Headline, v) ==> #[trigger] plan_of(Scenario::Headline, v) == (RunPlan { warmup: 1_000, timed: 25_000 }),
        forall|v: Variant|
            fits(Scenario::Insert, v) ==> #[trigger] plan_of(Scenario::Insert, v) == (RunPlan { warmup: 1_000, timed: 10_000 }),
        forall|v: Variant|
            fits(Scenario::RangeScan, v) ==> #[trigger] plan_of(Scenario::RangeScan, v) == (RunPlan { warmup: 250, timed: 125 }),
        forall|v: Variant|
            fits(Scenario::RoundTrip, v) ==> #[trigger] plan_of(Scenario::RoundTrip, v) == (RunPlan { warmup: 1_000, timed: 10_000 }),
        forall|v: Variant|
            fits(Scenario::BulkInsert, v) ==> #[trigger] plan_of(Scenario::BulkInsert, v)
                == (RunPlan { warmup: 10, timed: 100 }),
        forall|v: Variant|
            fits(Scenario::Open, v) ==> #[trigger] plan_of(Scenario::Open, v) == (RunPlan { warmup: 20, timed: 200 }),
        forall|v: Variant|
            fits(Scenario::Interactive, v) ==> #[trigger] plan_of(Scenario::Interactive, v)
                == (RunPlan { warmup: 1_000, timed: 1_000 }),
        forall|v: Variant|
            fits(Scenario::Aggregation, v) ==> #[trigger] plan_of(Scenario::Aggregation, v)
                == (RunPlan { warmup: 1_000, timed: 1_000 }),
        forall|v: Variant|
            fits(Scenario::Join, v) ==> #[trigger] plan_of(Scenario::Join, v) == (RunPlan { warmup: 250, timed: 125 }),
        plan_of(Scenario::Mutate, Variant::Mutation(MutateMode::Update)) == (RunPlan { warmup: 1_000, timed: 10_000 }),
        plan_of(Scenario::Mutate, Variant::Mutation(MutateMode::Delete)) == (RunPlan { warmup: 1_000, timed: 5_000 }),
        forall|s: Scenario, v: Variant|
            fits(s, v) ==> (#[trigger] plan_of(s, v)).timed > 0 && plan_of(s, v).warmup > 0,
{
}

/// The iteration counts of a sample set.
pub fn run_plan(s: Scenario, v: Variant) -> (r: RunPlan)
    ensures
        r == plan_of(s, v),
{
    match s {
        Scenario::Headline => RunPlan { warmup: N_WARMUP, timed: N_HEADLINE },
        Scenario::Insert => RunPlan { warmup: N_WARMUP, timed: N_INSERT },
        Scenario::RangeScan => RunPlan { warmup: N_RANGE_WARMUP, timed: N_RANGE_RUNS },
        Scenario::RoundTrip => RunPlan { warmup: N_WARMUP, timed: N_ROUND_TRIP },
        Scenario::BulkInsert => RunPlan { warmup: N_BULK_WARMUP, timed: N_BULK_RUNS },
        Scenario::Open => RunPlan { warmup: N_OPEN_WARMUP, timed: N_OPEN },
        Scenario::Interactive => RunPlan { warmup: N_WARMUP, timed: N_INTERACTIVE },
        Scenario::Aggregation => RunPlan { warmup: N_WARMUP, timed: N_AGG_RUNS },
        Scenario::Join => RunPlan { warmup: N_JOIN_WARMUP, timed: N_JOIN_RUNS },
        Scenario::Mutate => match v {
            Variant::Mutation(MutateMode::Delete) => RunPlan { warmup: N_WARMUP, timed: N_DELETE },
            _ => RunPlan { warmup: N_WARMUP, timed: N_UPDATE },
        },
    }
}

/// The rows a sample set seeds its table with before it runs: ids `1` to
/// this number.
pub open spec fn seed_rows(s: Scenario, v: Variant) -> nat {
    match s {
        Scenario::Headline | Scenario::RoundTrip | Scenario::Interactive => SEED_SMALL as nat,
        Scenario::RangeScan | Scenario::Aggregation => SEED_LARGE as nat,
        Scenario::Join => SEED_JOIN as nat,
        Scenario::Mutate => match v {
            Variant::Mutation(MutateMode::Delete) => SEED_MUTATE as nat,
            _ => SEED_SMALL as nat,
        },
        Scenario::Insert | Scenario::BulkInsert | Scenario::Open => 0,
    }
}

/// The number of rows a sample set draws from the row stream.
pub open spec fn rows_drawn(s: Scenario, v: Variant) -> nat {
    match s {
        Scenario::Insert => (N_INSERT + N_WARMUP) as nat,
        Scenario::BulkInsert => N_BULK as nat,
        Scenario::Interactive => (SEED_SMALL + N_INTERACTIVE + N_WARMUP) as nat,
        _ => seed_rows(s, v),
    }
}

/// The documented table sizes: the point-lookup, round-trip, interactive
/// and update runs seed 1 000 rows, the range scan and the aggregation the
/// same 10 000, the join 500 in each of its tables, the delete run 7 000,
/// and the insert, bulk insert and open runs start from an empty table.
/// Runs that insert draw exactly one fresh row per inserted row: the
/// single-row insert one per iteration, the interactive pair one per
/// iteration after its seeded rows, the bulk insert the rows of its
/// statement; the delete run seeds exactly the small table plus one row per
/// delete.
pub proof fn lemma_documented_table_sizes()
    ensures
        forall|v: Variant|
            fits(Scenario::Headline, v) ==> #[trigger] seed_rows(Scenario::Headline, v) == 1_000,
        forall|v: Variant|
            fits(Scenario::RoundTrip, v) ==> #[trigger] seed_rows(Scenario::RoundTrip, v) == 1_000,
        forall|v: Variant|
            fits(Scenario::Interactive, v) ==> #[trigger] seed_rows(Scenario::Interactive, v)
                == 1_000,
        forall|v: Variant|
            fits(Scenario::RangeScan, v) ==> #[trigger] seed_rows(Scenario::RangeScan, v) == 10_000,
        forall|v: Variant|
            fits(Scenario::Aggregation, v) ==> #[trigger] seed_rows(Scenario::Aggregation, v)
                == 10_000,
        forall|v1: Variant, v2: Variant|
            fits(Scenario::Aggregation, v1) && fits(Scenario::RangeScan, v2) ==> #[trigger] seed_rows(
                Scenario::Aggregation,
                v1,
            ) == #[trigger] seed_rows(Scenario::RangeScan, v2),
        forall|v: Variant|
            fits(Scenario::Join, v) ==> #[trigger] seed_rows(Scenario::Join, v) == 500,
        seed_rows(Scenario::Mutate, Variant::Mutation(MutateMode::Update)) == 1_000,
        seed_rows(Scenario::Mutate, Variant::Mutation(MutateMode::Delete)) == 7_000,
        seed_rows(Scenario::Mutate, Variant::Mutation(MutateMode::Delete)) == 1_000 + plan_of(
            Scenario::Mutate,
            Variant::Mutation(MutateMode::Delete),
        ).total(),
        forall|v: Variant|
            fits(Scenario::Insert, v) ==> #[trigger] seed_rows(Scenario::Insert, v) == 0,
        forall|v: Variant|
            fits(Scenario::BulkInsert, v) ==> #[trigger] seed_rows(Scenario::BulkInsert, v) == 0,
        forall|v: Variant| fits(Scenario::Open, v) ==> #[trigger] seed_rows(Scenario::Open, v) == 0,
        forall|v: Variant|
            fits(Scenario::Insert, v) ==> #[trigger] rows_drawn(Scenario::Insert, v) == plan_of(
                Scenario::Insert,
                v,
            ).total() && rows_drawn(Scenario::Insert, v) == 11_000,
        forall|v: Variant|
            fits(Scenario::Interactive, v) ==> #[trigger] rows_drawn(Scenario::Interactive, v)
                == seed_rows(Scenario::Interactive, v) + plan_of(Scenario::Interactive, v).total()
                && rows_drawn(Scenario::Interactive, v) == 3_000,
        forall|v: Variant|
            fits(Scenario::BulkInsert, v) ==> #[trigger] rows_drawn(Scenario::BulkInsert, v)
                == 10_000,
        forall|s: Scenario, v: Variant|
            fits(s, v) && s != Scenario::Insert && s != Scenario::Interactive && s
                != Scenario::BulkInsert ==> #[trigger] rows_drawn(s, v) == seed_rows(s, v),
{
}

/// The rows a sample set seeds its table with.
pub fn seed_row_count(s: Scenario, v: Variant) -> (r: usize)
    ensures
        r == seed_rows(s, v),
{
    match s {
        Scenario::Headline | Scenario::RoundTrip | Scenario::Interactive => SEED_SMALL,
        Scenario::RangeScan | Scenario::Aggregation => SEED_LARGE,
        Scenario::Join => SEED_JOIN,
        Scenario::Mutate => match v {
            Variant::Mutation(MutateMode::Delete) => SEED_MUTATE,
            _ => SEED_SMALL,
        },
        Scenario::Insert | Scenario::BulkInsert | Scenario::Open => 0,
    }
}

/// The number of rows a sample set draws from the row stream.
pub fn drawn_row_count(s: Scenario, v: Variant) -> (r: usize)
    ensures
        r == rows_drawn(s, v),
{
    match s {
        Scenario::Insert => N_INSERT + N_WARMUP,
        Scenario::BulkInsert => N_BULK,
        Scenario::Interactive => SEED_SMALL + N_INTERACTIVE + N_WARMUP,
        _ => seed_row_count(s, v),
    }
}

/// The row an insert iteration writes: the scenarios that insert during the
/// run take rows in stream order, after the seeded ones.
pub open spec fn inserted_row(s: Scenario, pos: int) -> int {
    if s == Scenario::Interactive {
        SEED_SMALL + pos
    } else {
        pos
    }
}

/// The index, in the row stream, of the row inserted at position `pos` of
/// the single-row insert or the interactive run.
pub fn inserted_row_index(s: Scenario, pos: usize) -> (r: usize)
    requires
        s == Scenario::Insert || s == Scenario::Interactive,
        pos < plan_of(s, Variant::Whole).total(),
    ensures
        r == inserted_row(s, pos as int),
{
    if let Scenario::Interactive = s {
        SEED_SMALL + pos
    } else {
        pos
    }
}

/// Rows inserted during a run come from the part of the row stream that
/// was drawn and never seeded, each iteration its own row.
pub proof fn lemma_inserted_rows(s: Scenario)
    requires
        s == Scenario::Insert || s == Scenario::Interactive,
    ensures
        forall|pos: int|
            0 <= pos < plan_of(s, Variant::Whole).total() ==> seed_rows(s, Variant::Whole)
                <= #[trigger] inserted_row(s, pos) < rows_drawn(s, Variant::Whole),
        forall|p: int, q: int|
            0 <= p < q < plan_of(s, Variant::Whole).total() ==> #[trigger] inserted_row(s, p)
                != #[trigger] inserted_row(s, q),
        inserted_row(s, 0) == seed_rows(s, Variant::Whole),
        forall|pos: int|
            0 <= pos ==> #[trigger] inserted_row(s, pos + 1) == inserted_row(s, pos) + 1,
{
}

/// The id the update at position `pos` writes: the seeded ids in a cycle.
pub open spec fn update_target(pos: int) -> int {
    (pos % (SEED_SMALL as int)) + 1
}

/// The id the delete at position `pos` removes: the ids above the small
/// table, in order.
pub open spec fn delete_target(pos: int) -> int {
    SEED_SMALL + pos + 1
}

/// The id the update at position `pos` of the update run writes.
pub fn update_id(pos: usize) -> (r: i64)
    requires
        pos < plan_of(Scenario::Mutate, Variant::Mutation(MutateMode::Update)).total(),
    ensures
        r == update_target(pos as int),
{
    ((pos % SEED_SMALL) as i64) + 1
}

/// The id the delete at position `pos` of the delete run removes.
pub fn delete_id(pos: usize) -> (r: i64)
    requires
        pos < plan_of(Scenario::Mutate, Variant::Mutation(MutateMode::Delete)).total(),
    ensures
        r == delete_target(pos as int),
{
    (SEED_SMALL + pos + 1) as i64
}

/// Every update writes a seeded row, walking the table from id 1 upwards
/// and wrapping around.
pub proof fn lemma_update_targets()
    ensures
        forall|pos: int|
            0 <= pos < plan_of(Scenario::Mutate, Variant::Mutation(MutateMode::Update)).total()
                ==> 1 <= #[trigger] update_target(pos) <= seed_rows(
                Scenario::Mutate,
                Variant::Mutation(MutateMode::Update),
            ),
        forall|pos: int|
            0 <= pos && #[trigger] update_target(pos) < SEED_SMALL ==> update_target(pos + 1)
                == update_target(pos) + 1,
        forall|pos: int|
            0 <= pos && #[trigger] update_target(pos) == SEED_SMALL ==> update_target(pos + 1) == 1,
        update_target(0) == 1,
        SEED_SMALL == 1_000,
{
}

/// Every delete removes a seeded row and no two deletes name the same id:
/// the untimed ones take the ids just above the small table, the timed ones
/// the rest up to the last seeded id, and every id in between is taken.
pub proof fn lemma_delete_targets()
    ensures
        ({
            let plan = plan_of(Scenario::Mutate, Variant::Mutation(MutateMode::Delete));
            &&& forall|pos: int|
                0 <= pos < plan.total() ==> SEED_SMALL < #[trigger] delete_target(pos) <= seed_rows(
                    Scenario::Mutate,
                    Variant::Mutation(MutateMode::Delete),
                )
            &&& forall|i: int|
                0 <= i < plan.warmup ==> SEED_SMALL < #[trigger] delete_target(i) <= SEED_SMALL
                    + N_WARMUP
            &&& forall|i: int|
                0 <= i < plan.timed ==> SEED_SMALL + N_WARMUP < #[trigger] delete_target(
                    plan.warmup + i,
                ) <= SEED_MUTATE
            &&& forall|p: int, q: int|
                0 <= p < q < plan.total() ==> #[trigger] delete_target(p) != #[trigger] delete_target(
                    q,
                )
            &&& forall|id: int|
                SEED_SMALL < id <= SEED_MUTATE ==> 0 <= id - SEED_SMALL - 1 < plan.total()
                    && #[trigger] delete_target(id - SEED_SMALL - 1) == id
            &&& delete_target(0) == 1_001
            &&& delete_target(plan.warmup as int) == 2_001
            &&& delete_target(plan.total() - 1) == 7_000
            &&& forall|pos: int|
                0 <= pos ==> #[trigger] delete_target(pos + 1) == delete_target(pos) + 1
        }),
{
}

/// The sizes of the scanned ranges are between one row and the whole seeded
/// table, so a scan of size `k` returns exactly the rows `1..=k`.
pub proof fn lemma_range_sizes()
    ensures
        N_RANGE_K@.len() == 4,
        forall|i: int|
            0 <= i < N_RANGE_K@.len() ==> 1 <= #[trigger] N_RANGE_K@[i] <= seed_rows(
                Scenario::RangeScan,
                Variant::RangeSize(N_RANGE_K@[i]),
            ),
{
    assert(N_RANGE_K@ =~= seq![1i64, 100, 1_000, 10_000]);
}

/// The ids the point lookups and round trips look up: one per iteration,
/// each one of the seeded ids, taken in order from the lookup-id stream.
pub fn lookup_plan_ids(s: Scenario) -> (ids: Vec<i64>)
    requires
        s == Scenario::Headline || s == Scenario::RoundTrip,
    ensures
        ids@ == lookup_stream(plan_of(s, Variant::Whole).total() as nat, SEED_SMALL as i64),
        ids@.len() == plan_of(s, Variant::Whole).total(),
        forall|i: int|
            0 <= i < ids@.len() ==> 1 <= #[trigger] ids@[i] <= seed_rows(s, Variant::Whole),
{
    let plan = run_plan(s, Variant::Whole);
    lookup_ids(plan.warmup + plan.timed, SEED_SMALL as i64)
}

/// The largest number of rows any sample set draws that the C benchmarks
/// read from the dumped row stream.
pub open spec fn max_rows_spec() -> nat {
    let a = SEED_SMALL as nat;
    let b = if SEED_LARGE > a { SEED_LARGE as nat } else { a };
    let c = if N_BULK > b { N_BULK as nat } else { b };
    let d = if N_INSERT + N_WARMUP > c { (N_INSERT + N_WARMUP) as nat } else { c };
    if SEED_MUTATE > d { SEED_MUTATE as nat } else { d }
}

/// The number of rows to dump: the largest of the seeded and drawn row
/// counts of the small, large, bulk, insert and mutate sets.
pub fn max_rows() -> (r: usize)
    ensures
        r == max_rows_spec(),
{
    let counts: [usize; 5] = [SEED_SMALL, SEED_LARGE, N_BULK, N_INSERT + N_WARMUP, SEED_MUTATE];
    let mut best: usize = counts[0];
    let mut i: usize = 1;
    while i < 5
        invariant
            1 <= i <= 5,
            counts@ == seq![SEED_SMALL, SEED_LARGE, N_BULK, (N_INSERT + N_WARMUP) as usize, SEED_MUTATE],
            best == ({
                let a = SEED_SMALL as nat;
                let b = if SEED_LARGE > a { SEED_LARGE as nat } else { a };
                let c = if N_BULK > b { N_BULK as nat } else { b };
                let d = if N_INSERT + N_WARMUP > c { (N_INSERT + N_WARMUP) as nat } else { c };
                let e = if SEED_MUTATE > d { SEED_MUTATE as nat } else { d };
                if i == 1 { a } else if i == 2 { b } else if i == 3 { c } else if i == 4 { d } else { e }
            }),
        decreases 5 - i,
    {
        if counts[i] > best {
            best = counts[i];
        }
        i = i + 1;
    }
    best
}

/// The number of lookup ids to dump: those of the point-lookup run.
pub fn max_ids() -> (r: usize)
    ensures
        r == plan_of(Scenario::Headline, Variant::Whole).total(),
{
    N_HEADLINE + N_WARMUP
}

/// The ids the C benchmarks read from the dumped id stream are the ids the
/// Rust point lookups and round trips use: each run's ids are the first
/// ones of the dump.
pub proof fn lemma_dumped_ids_match(s: Scenario)
    requires
        s == Scenario::Headline || s == Scenario::RoundTrip,
    ensures
        lookup_stream(plan_of(s, Variant::Whole).total() as nat, SEED_SMALL as i64) == lookup_stream(
            plan_of(Scenario::Headline, Variant::Whole).total() as nat,
            SEED_SMALL as i64,
        ).take(plan_of(s, Variant::Whole).total() as int),
{
    lemma_lookup_stream_prefix(
        plan_of(s, Variant::Whole).total() as nat,
        plan_of(Scenario::Headline, Variant::Whole).total() as nat,
        SEED_SMALL as i64,
    );
}

/// The dumped streams are long enough for every sample set: the row dump
/// holds every row any set draws, and the id dump every id the point
/// lookups and round trips look up.
pub proof fn lemma_dumps_cover()
    ensures
        forall|s: Scenario, v: Variant| #[trigger] rows_drawn(s, v) <= max_rows_spec(),
        plan_of(Scenario::RoundTrip, Variant::Whole).total() <= plan_of(
            Scenario::Headline,
            Variant::Whole,
        ).total(),
        max_rows_spec() == rows_drawn(Scenario::Insert, Variant::Whole),
{
}

} // verus!
