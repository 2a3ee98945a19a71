use otterbrix_bench::plan::{
    delete_id, drawn_row_count, inserted_row_index, lookup_plan_ids, max_ids, max_rows, run_plan,
    scenario_runs_on, seed_row_count, update_id, Aggregate, Layer, MutateMode, Phase, RunPlan,
    Scenario, Step, Variant,
};
use otterbrix_bench::scenarios::{N_RANGE_K, SEED_LARGE, SEED_MUTATE, SEED_SMALL};

#[test]
fn plan_walks_warmup_then_timed() {
    let plan = RunPlan { warmup: 2, timed: 3 };
    let mut steps = Vec::new();
    let mut pos = 0;
    while let Some(step) = plan.step(pos) {
        steps.push(step);
        pos += 1;
    }
    assert_eq!(
        steps,
        vec![
            Step { phase: Phase::Warmup, index: 0 },
            Step { phase: Phase::Warmup, index: 1 },
            Step { phase: Phase::Timed, index: 0 },
            Step { phase: Phase::Timed, index: 1 },
            Step { phase: Phase::Timed, index: 2 },
        ]
    );
    assert_eq!(plan.step(usize::MAX), None);
    assert_eq!(RunPlan { warmup: 0, timed: 0 }.step(0), None);
}

#[test]
fn scenario_sizes_match_the_documented_counts() {
    assert_eq!(run_plan(Scenario::Headline, Variant::Whole), RunPlan { warmup: 1000, timed: 25000 });
    assert_eq!(run_plan(Scenario::RangeScan, Variant::RangeSize(100)), RunPlan { warmup: 250, timed: 125 });
    assert_eq!(run_plan(Scenario::BulkInsert, Variant::Whole), RunPlan { warmup: 10, timed: 100 });
    assert_eq!(run_plan(Scenario::Open, Variant::Whole), RunPlan { warmup: 20, timed: 200 });
    assert_eq!(run_plan(Scenario::Join, Variant::Whole), RunPlan { warmup: 250, timed: 125 });
    assert_eq!(
        run_plan(Scenario::Aggregation, Variant::Aggregate(Aggregate::Max)),
        RunPlan { warmup: 1000, timed: 1000 }
    );
    assert_eq!(
        run_plan(Scenario::Mutate, Variant::Mutation(MutateMode::Update)),
        RunPlan { warmup: 1000, timed: 10000 }
    );
    assert_eq!(
        run_plan(Scenario::Mutate, Variant::Mutation(MutateMode::Delete)),
        RunPlan { warmup: 1000, timed: 5000 }
    );
}

#[test]
fn seeded_and_drawn_rows() {
    assert_eq!(seed_row_count(Scenario::Mutate, Variant::Mutation(MutateMode::Delete)), 7000);
    assert_eq!(SEED_MUTATE, 7000);
    assert_eq!(seed_row_count(Scenario::Insert, Variant::Whole), 0);
    assert_eq!(drawn_row_count(Scenario::Insert, Variant::Whole), 11000);
    assert_eq!(drawn_row_count(Scenario::Interactive, Variant::Whole), 3000);
    assert_eq!(drawn_row_count(Scenario::Join, Variant::Whole), 500);
}

#[test]
fn updates_cycle_through_the_small_table() {
    assert_eq!(update_id(0), 1);
    assert_eq!(update_id(999), 1000);
    assert_eq!(update_id(1000), 1);
    assert_eq!(update_id(10999), 1000);
    for pos in 0..11000 {
        let id = update_id(pos);
        assert!(1 <= id && id as usize <= SEED_SMALL);
    }
}

#[test]
fn deletes_take_each_upper_id_once() {
    assert_eq!(delete_id(0), 1001);
    assert_eq!(delete_id(999), 2000);
    assert_eq!(delete_id(1000), 2001);
    assert_eq!(delete_id(5999), 7000);
    let ids: Vec<i64> = (0..6000).map(delete_id).collect();
    let expected: Vec<i64> = (1001..=7000).collect();
    assert_eq!(ids, expected);
}

#[test]
fn interactive_rows_follow_the_seeded_ones() {
    assert_eq!(inserted_row_index(Scenario::Interactive, 0), SEED_SMALL);
    assert_eq!(inserted_row_index(Scenario::Interactive, 1999), 2999);
    assert_eq!(inserted_row_index(Scenario::Insert, 5), 5);
}

#[test]
fn lookups_hit_seeded_rows() {
    let ids = lookup_plan_ids(Scenario::Headline);
    assert_eq!(ids.len(), 26000);
    assert!(ids.iter().all(|&id| 1 <= id && id <= 1000));
    let round = lookup_plan_ids(Scenario::RoundTrip);
    assert_eq!(round.len(), 11000);
    assert_eq!(&round[..], &ids[..11000]);
}

#[test]
fn dumps_are_long_enough() {
    assert_eq!(max_rows(), 11000);
    assert_eq!(max_ids(), 26000);
}

#[test]
fn range_sizes_fit_the_large_table() {
    assert_eq!(N_RANGE_K, [1, 100, 1000, 10000]);
    assert!(N_RANGE_K.iter().all(|&k| 1 <= k && k as usize <= SEED_LARGE));
}

#[test]
fn interactive_runs_only_on_adapters() {
    assert!(!scenario_runs_on(Scenario::Interactive, Layer::Sys));
    assert!(!scenario_runs_on(Scenario::Interactive, Layer::Otterbrix));
    assert!(scenario_runs_on(Scenario::Interactive, Layer::SeaOrm));
    assert!(scenario_runs_on(Scenario::Interactive, Layer::Sqlx));
    assert!(scenario_runs_on(Scenario::Join, Layer::Sys));
}

#[test]
fn round_trip_ids_are_the_first_headline_ids() {
    let headline = lookup_plan_ids(Scenario::Headline);
    let round_trip = lookup_plan_ids(Scenario::RoundTrip);
    assert_eq!(round_trip[..], headline[..round_trip.len()]);
    assert_eq!(headline, otterbrix_bench::data::lookup_ids(headline.len(), SEED_SMALL as i64));
}
