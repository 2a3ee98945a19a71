//! Names: of the layers, of the benchmark programs, of the sample sets they
//! write, of the temporary directories of each run, and the mode argument of
//! the mutate programs.
use vstd::prelude::*;

use crate::plan::{Aggregate, Layer, MutateMode, Scenario, Variant, fits, runs_on, scenario_runs_on};
use crate::scenarios::N_RANGE_K;
use crate::text::{
    decimal, int_decimal, lemma_decimal_injective, push_decimal, push_int_decimal, str_equal,
};

verus! {

/// The name of a layer as it appears in program and file names.
pub open spec fn layer_name(l: Layer) -> Seq<char> {
    match l {
        Layer::Sys => "sys"@,
        Layer::Otterbrix => "otterbrix"@,
        Layer::SeaOrm => "seaorm"@,
        Layer::Sqlx => "sqlx"@,
    }
}

/// The name of a layer.
pub fn layer_str(l: Layer) -> (r: &'static str)
    ensures
        r@ == layer_name(l),
{
    match l {
        Layer::Sys => "sys",
        Layer::Otterbrix => "otterbrix",
        Layer::SeaOrm => "seaorm",
        Layer::Sqlx => "sqlx",
    }
}

/// The numbered name of a scenario.
pub open spec fn scenario_stem(s: Scenario) -> Seq<char> {
    match s {
        Scenario::Headline => "s1_headline"@,
        Scenario::Insert => "s2_insert"@,
        Scenario::RangeScan => "s3_range_scan"@,
        Scenario::RoundTrip => "s4_round_trip"@,
        Scenario::BulkInsert => "s5_bulk_insert"@,
        Scenario::Open => "s6_open"@,
        Scenario::Interactive => "s7_interactive"@,
        Scenario::Aggregation => "s8_aggregation"@,
        Scenario::Join => "s9_join"@,
        Scenario::Mutate => "s10_mutate"@,
    }
}

/// The numbered name of a scenario.
pub fn scenario_str(s: Scenario) -> (r: &'static str)
    ensures
        r@ == scenario_stem(s),
{
    match s {
        Scenario::Headline => "s1_headline",
        Scenario::Insert => "s2_insert",
        Scenario::RangeScan => "s3_range_scan",
        Scenario::RoundTrip => "s4_round_trip",
        Scenario::BulkInsert => "s5_bulk_insert",
        Scenario::Open => "s6_open",
        Scenario::Interactive => "s7_interactive",
        Scenario::Aggregation => "s8_aggregation",
        Scenario::Join => "s9_join",
        Scenario::Mutate => "s10_mutate",
    }
}

/// The name of the program that runs a scenario on a layer.
pub open spec fn program_name(s: Scenario, l: Layer) -> Seq<char> {
    scenario_stem(s) + "_"@ + layer_name(l)
}

/// The name of the program that runs a scenario on a layer.
pub fn program_string(s: Scenario, l: Layer) -> (r: String)
    ensures
        r@ == program_name(s, l),
{
    let mut out = String::from_str(scenario_str(s));
    out.append("_");
    out.append(layer_str(l));
    out
}

/// The mode argument that selects a mutate phase.
pub open spec fn mode_name(m: MutateMode) -> Seq<char> {
    match m {
        MutateMode::Update => "update"@,
        MutateMode::Delete => "delete"@,
    }
}

/// The mode argument that selects a mutate phase.
pub fn mode_str(m: MutateMode) -> (r: &'static str)
    ensures
        r@ == mode_name(m),
{
    match m {
        MutateMode::Update => "update",
        MutateMode::Delete => "delete",
    }
}

/// What is wrong with the mode argument of a mutate program.
#[derive(Clone, Copy, Debug, PartialEq, Eq, Structural)]
pub enum ModeError {
    /// No argument was given.
    Missing,
    /// The argument is neither `update` nor `delete`.
    Invalid,
}

/// The mutate phase the argument selects.
pub open spec fn mode_of(arg: Option<Seq<char>>) -> Result<MutateMode, ModeError> {
    match arg {
        None => Err(ModeError::Missing),
        Some(a) => if a == "update"@ {
            Ok(MutateMode::Update)
        } else if a == "delete"@ {
            Ok(MutateMode::Delete)
        } else {
            Err(ModeError::Invalid)
        },
    }
}

/// Reads the mode argument of a mutate program: `update` or `delete`.
pub fn parse_mode(arg: Option<&str>) -> (r: Result<MutateMode, ModeError>)
    ensures
        r == mode_of(arg.deep_view()),
{
    match arg {
        None => Err(ModeError::Missing),
        Some(a) => if str_equal(a, "update") {
            Ok(MutateMode::Update)
        } else if str_equal(a, "delete") {
            Ok(MutateMode::Delete)
        } else {
            Err(ModeError::Invalid)
        },
    }
}

/// The suffix that tells the sample sets of one program apart.
pub open spec fn variant_suffix(v: Variant) -> Seq<char> {
    match v {
        Variant::Whole => Seq::empty(),
        Variant::RangeSize(k) => "_k"@ + int_decimal(k as int),
        Variant::Aggregate(Aggregate::Sum) => "_sum"@,
        Variant::Aggregate(Aggregate::Max) => "_max"@,
        Variant::Mutation(m) => "_"@ + mode_name(m),
    }
}

/// The name of a sample set, which is also the stem of its CSV file.
pub open spec fn samples_name(s: Scenario, l: Layer, v: Variant) -> Seq<char> {
    program_name(s, l) + variant_suffix(v)
}

/// The name of a sample set.
pub fn samples_string(s: Scenario, l: Layer, v: Variant) -> (r: String)
    ensures
        r@ == samples_name(s, l, v),
{
    let mut out = program_string(s, l);
    match v {
        Variant::Whole => {},
        Variant::RangeSize(k) => {
            out.append("_k");
            push_int_decimal(&mut out, k);
        },
        Variant::Aggregate(Aggregate::Sum) => out.append("_sum"),
        Variant::Aggregate(Aggregate::Max) => out.append("_max"),
        Variant::Mutation(m) => {
            out.append("_");
            out.append(mode_str(m));
        },
    }
    assert(out@ =~= samples_name(s, l, v));
    out
}

/// The sample sets of one program have different names, so each lands in a
/// file of its own.
pub proof fn lemma_sample_names_distinct(s: Scenario, l: Layer, v1: Variant, v2: Variant)
    requires
        fits(s, v1),
        fits(s, v2),
        v1 != v2,
    ensures
        samples_name(s, l, v1) != samples_name(s, l, v2),
{
    let p = program_name(s, l);
    let n1 = samples_name(s, l, v1);
    let n2 = samples_name(s, l, v2);
    if n1 == n2 {
        assert(variant_suffix(v1) =~= n1.subrange(p.len() as int, n1.len() as int));
        assert(variant_suffix(v2) =~= n2.subrange(p.len() as int, n2.len() as int));
        let i: int = 1;
        match (v1, v2) {
            (Variant::RangeSize(k1), Variant::RangeSize(k2)) => {
                reveal_strlit("_k");
                assert(N_RANGE_K@ =~= seq![1i64, 100, 1_000, 10_000]);
                assert(k1 >= 1 && k2 >= 1);
                let d1 = int_decimal(k1 as int);
                let d2 = int_decimal(k2 as int);
                assert(d1 =~= variant_suffix(v1).subrange(2, variant_suffix(v1).len() as int));
                assert(d2 =~= variant_suffix(v2).subrange(2, variant_suffix(v2).len() as int));
                lemma_decimal_injective(k1 as nat, k2 as nat);
            },
            (Variant::Aggregate(a1), Variant::Aggregate(a2)) => {
                reveal_strlit("_sum");
                reveal_strlit("_max");
                assert(variant_suffix(v1)[i] != variant_suffix(v2)[i]);
            },
            (Variant::Mutation(m1), Variant::Mutation(m2)) => {
                reveal_strlit("_");
                reveal_strlit("update");
                reveal_strlit("delete");
                assert(variant_suffix(v1)[i] != variant_suffix(v2)[i]);
            },
            _ => {},
        }
    }
}

/// The documented names, character by character: the numbered scenario
/// stems `s1_headline` to `s10_mutate`, the layer names, the separator, the
/// mode arguments and the suffixes of the aggregate sample sets.
pub proof fn lemma_documented_names()
    ensures
        scenario_stem(Scenario::Headline) == seq!['s', '1', '_', 'h', 'e', 'a', 'd', 'l', 'i', 'n', 'e'],
        scenario_stem(Scenario::Insert) == seq!['s', '2', '_', 'i', 'n', 's', 'e', 'r', 't'],
        scenario_stem(Scenario::RangeScan) == seq![
            's', '3', '_', 'r', 'a', 'n', 'g', 'e', '_', 's', 'c', 'a', 'n',
        ],
        scenario_stem(Scenario::RoundTrip) == seq![
            's', '4', '_', 'r', 'o', 'u', 'n', 'd', '_', 't', 'r', 'i', 'p',
        ],
        scenario_stem(Scenario::BulkInsert) == seq![
            's', '5', '_', 'b', 'u', 'l', 'k', '_', 'i', 'n', 's', 'e', 'r', 't',
        ],
        scenario_stem(Scenario::Open) == seq!['s', '6', '_', 'o', 'p', 'e', 'n'],
        scenario_stem(Scenario::Interactive) == seq![
            's', '7', '_', 'i', 'n', 't', 'e', 'r', 'a', 'c', 't', 'i', 'v', 'e',
        ],
        scenario_stem(Scenario::Aggregation) == seq![
            's', '8', '_', 'a', 'g', 'g', 'r', 'e', 'g', 'a', 't', 'i', 'o', 'n',
        ],
        scenario_stem(Scenario::Join) == seq!['s', '9', '_', 'j', 'o', 'i', 'n'],
        scenario_stem(Scenario::Mutate) == seq!['s', '1', '0', '_', 'm', 'u', 't', 'a', 't', 'e'],
        layer_name(Layer::Sys) == seq!['s', 'y', 's'],
        layer_name(Layer::Otterbrix) == seq!['o', 't', 't', 'e', 'r', 'b', 'r', 'i', 'x'],
        layer_name(Layer::SeaOrm) == seq!['s', 'e', 'a', 'o', 'r', 'm'],
        layer_name(Layer::Sqlx) == seq!['s', 'q', 'l', 'x'],
        "_"@ == seq!['_'],
        mode_name(MutateMode::Update) == seq!['u', 'p', 'd', 'a', 't', 'e'],
        mode_name(MutateMode::Delete) == seq!['d', 'e', 'l', 'e', 't', 'e'],
        variant_suffix(Variant::Whole) == Seq::<char>::empty(),
        variant_suffix(Variant::Aggregate(Aggregate::Sum)) == seq!['_', 's', 'u', 'm'],
        variant_suffix(Variant::Aggregate(Aggregate::Max)) == seq!['_', 'm', 'a', 'x'],
        forall|k: i64|
            #[trigger] variant_suffix(Variant::RangeSize(k)) == seq!['_', 'k'] + int_decimal(
                k as int,
            ),
        forall|m: MutateMode|
            #[trigger] variant_suffix(Variant::Mutation(m)) == seq!['_'] + mode_name(m),
{
    reveal_strlit("update");
    reveal_strlit("delete");
    reveal_strlit("_sum");
    reveal_strlit("_max");
    reveal_strlit("_k");
    assert(mode_name(MutateMode::Update) =~= seq!['u', 'p', 'd', 'a', 't', 'e']);
    assert(mode_name(MutateMode::Delete) =~= seq!['d', 'e', 'l', 'e', 't', 'e']);
    assert(variant_suffix(Variant::Aggregate(Aggregate::Sum)) =~= seq!['_', 's', 'u', 'm']);
    assert(variant_suffix(Variant::Aggregate(Aggregate::Max)) =~= seq!['_', 'm', 'a', 'x']);
    assert("_k"@ =~= seq!['_', 'k']);
    reveal_strlit("s1_headline");
    reveal_strlit("s2_insert");
    reveal_strlit("s3_range_scan");
    reveal_strlit("s4_round_trip");
    reveal_strlit("s5_bulk_insert");
    reveal_strlit("s6_open");
    reveal_strlit("s7_interactive");
    reveal_strlit("s8_aggregation");
    reveal_strlit("s9_join");
    reveal_strlit("s10_mutate");
    reveal_strlit("sys");
    reveal_strlit("otterbrix");
    reveal_strlit("seaorm");
    reveal_strlit("sqlx");
    reveal_strlit("_");
    assert(scenario_stem(Scenario::Headline) =~= seq!['s', '1', '_', 'h', 'e', 'a', 'd', 'l', 'i', 'n', 'e']);
    assert(scenario_stem(Scenario::Insert) =~= seq!['s', '2', '_', 'i', 'n', 's', 'e', 'r', 't']);
    assert(scenario_stem(Scenario::RangeScan) =~= seq![
        's', '3', '_', 'r', 'a', 'n', 'g', 'e', '_', 's', 'c', 'a', 'n',
    ]);
    assert(scenario_stem(Scenario::RoundTrip) =~= seq![
        's', '4', '_', 'r', 'o', 'u', 'n', 'd', '_', 't', 'r', 'i', 'p',
    ]);
    assert(scenario_stem(Scenario::BulkInsert) =~= seq![
        's', '5', '_', 'b', 'u', 'l', 'k', '_', 'i', 'n', 's', 'e', 'r', 't',
    ]);
    assert(scenario_stem(Scenario::Open) =~= seq!['s', '6', '_', 'o', 'p', 'e', 'n']);
    assert(scenario_stem(Scenario::Interactive) =~= seq![
        's', '7', '_', 'i', 'n', 't', 'e', 'r', 'a', 'c', 't', 'i', 'v', 'e',
    ]);
    assert(scenario_stem(Scenario::Aggregation) =~= seq![
        's', '8', '_', 'a', 'g', 'g', 'r', 'e', 'g', 'a', 't', 'i', 'o', 'n',
    ]);
    assert(scenario_stem(Scenario::Join) =~= seq!['s', '9', '_', 'j', 'o', 'i', 'n']);
    assert(scenario_stem(Scenario::Mutate) =~= seq!['s', '1', '0', '_', 'm', 'u', 't', 'a', 't', 'e']);
    assert(layer_name(Layer::Sys) =~= seq!['s', 'y', 's']);
    assert(layer_name(Layer::Otterbrix) =~= seq!['o', 't', 't', 'e', 'r', 'b', 'r', 'i', 'x']);
    assert(layer_name(Layer::SeaOrm) =~= seq!['s', 'e', 'a', 'o', 'r', 'm']);
    assert(layer_name(Layer::Sqlx) =~= seq!['s', 'q', 'l', 'x']);
    assert("_"@ =~= seq!['_']);
}

/// Every sample set of every program has a name of its own, so no two sample
/// sets share a CSV file.
pub proof fn lemma_sample_names_unique(s1: Scenario, l1: Layer, v1: Variant, s2: Scenario, l2: Layer, v2: Variant)
    requires
        fits(s1, v1),
        fits(s2, v2),
        (s1, l1, v1) != (s2, l2, v2),
    ensures
        samples_name(s1, l1, v1) != samples_name(s2, l2, v2),
{
    let n1 = samples_name(s1, l1, v1);
    let n2 = samples_name(s2, l2, v2);
    if n1 == n2 {
        lemma_documented_names();
        let a = scenario_stem(s1);
        let b = scenario_stem(s2);
        assert(n1[1] == a[1] && n1[2] == a[2]);
        assert(n2[1] == b[1] && n2[2] == b[2]);
        assert(s1 == s2);
        let k: int = a.len() as int;
        assert(n1[k] == '_');
        assert(n1[k + 1] == layer_name(l1)[0] && n1[k + 2] == layer_name(l1)[1]);
        assert(n2[k + 1] == layer_name(l2)[0] && n2[k + 2] == layer_name(l2)[1]);
        assert(l1 == l2);
        lemma_sample_names_distinct(s1, l1, v1, v2);
    }
}

/// Parsing the name of a mutate phase gives that phase back.
pub proof fn lemma_mode_round_trip()
    ensures
        forall|m: MutateMode| #[trigger] mode_of(Some(mode_name(m))) == Ok::<MutateMode, ModeError>(m),
        mode_of(None) == Err::<MutateMode, ModeError>(ModeError::Missing),
{
    reveal_strlit("update");
    reveal_strlit("delete");
    assert("update"@ != "delete"@) by {
        assert("update"@[0] != "delete"@[0]);
    }
}

/// Different programs have different names: a program name gives back its
/// scenario and its layer.
pub proof fn lemma_program_names_unique(s1: Scenario, l1: Layer, s2: Scenario, l2: Layer)
    ensures
        program_name(s1, l1) == program_name(s2, l2) ==> s1 == s2 && l1 == l2,
{
    let n1 = program_name(s1, l1);
    let n2 = program_name(s2, l2);
    if n1 == n2 {
        lemma_documented_names();
        let a = scenario_stem(s1);
        let b = scenario_stem(s2);
        assert(n1[1] == a[1] && n1[2] == a[2]);
        assert(n2[1] == b[1] && n2[2] == b[2]);
        assert(s1 == s2);
        let k: int = a.len() as int;
        assert(n1[k] == '_');
        assert(n1[k + 1] == layer_name(l1)[0] && n1[k + 2] == layer_name(l1)[1]);
        assert(n2[k + 1] == layer_name(l2)[0] && n2[k + 2] == layer_name(l2)[1]);
        assert(l1 == l2);
    }
}

/// The prefix of the temporary directory of one run: the given prefix, the
/// run number and an underscore.
pub fn run_prefix(prefix: &str, run: usize) -> (r: String)
    ensures
        r@ == prefix@ + decimal(run as nat) + "_"@,
{
    let mut out = String::from_str(prefix);
    push_decimal(&mut out, run as u128);
    out.append("_");
    out
}

/// The scenario at position `i` of the numbering `s1` to `s10`.
pub open spec fn scenario_at(i: int) -> Scenario {
    if i == 0 {
        Scenario::Headline
    } else if i == 1 {
        Scenario::Insert
    } else if i == 2 {
        Scenario::RangeScan
    } else if i == 3 {
        Scenario::RoundTrip
    } else if i == 4 {
        Scenario::BulkInsert
    } else if i == 5 {
        Scenario::Open
    } else if i == 6 {
        Scenario::Interactive
    } else if i == 7 {
        Scenario::Aggregation
    } else if i == 8 {
        Scenario::Join
    } else {
        Scenario::Mutate
    }
}

/// The position of a scenario in the numbering.
pub open spec fn scenario_index(s: Scenario) -> int {
    match s {
        Scenario::Headline => 0,
        Scenario::Insert => 1,
        Scenario::RangeScan => 2,
        Scenario::RoundTrip => 3,
        Scenario::BulkInsert => 4,
        Scenario::Open => 5,
        Scenario::Interactive => 6,
        Scenario::Aggregation => 7,
        Scenario::Join => 8,
        Scenario::Mutate => 9,
    }
}

/// The layer at position `i` of the order sys, otterbrix, seaorm, sqlx.
pub open spec fn layer_at(i: int) -> Layer {
    if i == 0 {
        Layer::Sys
    } else if i == 1 {
        Layer::Otterbrix
    } else if i == 2 {
        Layer::SeaOrm
    } else {
        Layer::Sqlx
    }
}

/// The position of a layer in that order.
pub open spec fn layer_index(l: Layer) -> int {
    match l {
        Layer::Sys => 0,
        Layer::Otterbrix => 1,
        Layer::SeaOrm => 2,
        Layer::Sqlx => 3,
    }
}

fn scenario_numbered(i: usize) -> (s: Scenario)
    requires
        i < 10,
    ensures
        s == scenario_at(i as int),
        scenario_index(s) == i,
{
    if i == 0 {
        Scenario::Headline
    } else if i == 1 {
        Scenario::Insert
    } else if i == 2 {
        Scenario::RangeScan
    } else if i == 3 {
        Scenario::RoundTrip
    } else if i == 4 {
        Scenario::BulkInsert
    } else if i == 5 {
        Scenario::Open
    } else if i == 6 {
        Scenario::Interactive
    } else if i == 7 {
        Scenario::Aggregation
    } else if i == 8 {
        Scenario::Join
    } else {
        Scenario::Mutate
    }
}

fn layer_numbered(i: usize) -> (l: Layer)
    requires
        i < 4,
    ensures
        l == layer_at(i as int),
        layer_index(l) == i,
{
    if i == 0 {
        Layer::Sys
    } else if i == 1 {
        Layer::Otterbrix
    } else if i == 2 {
        Layer::SeaOrm
    } else {
        Layer::Sqlx
    }
}

proof fn lemma_numbering(s: Scenario, l: Layer)
    ensures
        0 <= scenario_index(s) < 10,
        scenario_at(scenario_index(s)) == s,
        0 <= layer_index(l) < 4,
        layer_at(layer_index(l)) == l,
{
}

/// The scenario and layer of the program called `name`, if `name` is the
/// name of a program of a scenario on a layer it runs on.
pub fn program_of(name: &str) -> (r: Option<(Scenario, Layer)>)
    ensures
        r matches Some((s, l)) ==> runs_on(s, l) && program_name(s, l) == name@,
        r is None ==> forall|s: Scenario, l: Layer|
            runs_on(s, l) ==> #[trigger] program_name(s, l) != name@,
        forall|s: Scenario, l: Layer|
            runs_on(s, l) && #[trigger] program_name(s, l) == name@ ==> r == Some((s, l)),
{
    let mut i: usize = 0;
    while i < 10
        invariant
            i <= 10,
            forall|s: Scenario, l: Layer|
                scenario_index(s) < i && runs_on(s, l) ==> #[trigger] program_name(s, l) != name@,
        decreases 10 - i,
    {
        let s = scenario_numbered(i);
        let mut j: usize = 0;
        while j < 4
            invariant
                i < 10,
                j <= 4,
                s == scenario_at(i as int),
                scenario_index(s) == i,
                forall|s2: Scenario, l: Layer|
                    scenario_index(s2) < i && runs_on(s2, l) ==> #[trigger] program_name(s2, l)
                        != name@,
                forall|l: Layer|
                    layer_index(l) < j && runs_on(s, l) ==> #[trigger] program_name(s, l) != name@,
            decreases 4 - j,
        {
            let l = layer_numbered(j);
            if scenario_runs_on(s, l) {
                let candidate = program_string(s, l);
                if str_equal(candidate.as_str(), name) {
                    proof {
                        assert forall|s2: Scenario, l2: Layer|
                            runs_on(s2, l2) && #[trigger] program_name(s2, l2) == name@ implies (s2, l2)
                            == (s, l) by {
                            lemma_program_names_unique(s2, l2, s, l);
                        }
                    }
                    return Some((s, l));
                }
            }
            proof {
                assert forall|l2: Layer|
                    layer_index(l2) < j + 1 && runs_on(s, l2) implies #[trigger] program_name(s, l2)
                    != name@ by {
                    lemma_numbering(s, l2);
                }
            }
            j = j + 1;
        }
        proof {
            assert forall|s2: Scenario, l: Layer|
                scenario_index(s2) < i + 1 && runs_on(s2, l) implies #[trigger] program_name(s2, l)
                != name@ by {
                lemma_numbering(s2, l);
            }
        }
        i = i + 1;
    }
    proof {
        assert forall|s: Scenario, l: Layer| runs_on(s, l) implies #[trigger] program_name(s, l)
            != name@ by {
            lemma_numbering(s, l);
        }
    }
    None
}

} // verus!
