//! Raw results: one CSV file per (scenario, layer) pair, holding a single
//! `ns` column with one latency in nanoseconds per line.
use vstd::prelude::*;

use crate::data::data_dir_of;
use crate::paths::{ancestor_of, lemma_grandparent, path_join, path_join_of, path_parent};
use crate::text::{decimal, decimal_value, is_digit, lemma_decimal_round_trip, push_char, push_decimal};

verus! {

/// Where results go unless overridden: `results/raw` under the benchmark
/// root, two levels above the crate's manifest directory.
pub open spec fn default_results_dir(manifest_dir: Seq<char>) -> Option<Seq<char>> {
    match ancestor_of(manifest_dir, 2) {
        Some(root) => Some(path_join_of(path_join_of(root, "results"@), "raw"@)),
        None => None,
    }
}

/// The results directory: the override when one is set, the default one
/// otherwise.
pub open spec fn results_dir_of(env_override: Option<Seq<char>>, manifest_dir: Seq<char>) -> Option<
    Seq<char>,
> {
    match env_override {
        Some(dir) => Some(dir),
        None => default_results_dir(manifest_dir),
    }
}

/// The data files and the raw results lie under one root: when the manifest
/// directory has a grandparent, `data` and `results/raw` are joined onto
/// that same grandparent; when it has none, there is neither.
pub proof fn lemma_data_and_results_share_root(manifest_dir: Seq<char>)
    ensures
        match ancestor_of(manifest_dir, 2) {
            Some(root) => {
                &&& data_dir_of(manifest_dir) == Some(path_join_of(root, "data"@))
                &&& default_results_dir(manifest_dir) == Some(
                    path_join_of(path_join_of(root, "results"@), "raw"@),
                )
            },
            None => data_dir_of(manifest_dir) is None && default_results_dir(manifest_dir) is None,
        },
{
}

/// The directory raw results are written to, given the override taken from
/// the environment (if any) and the crate's manifest directory.
pub fn results_dir(env_override: Option<&str>, manifest_dir: &str) -> (r: String)
    requires
        results_dir_of(env_override.deep_view(), manifest_dir@) is Some,
    ensures
        Some(r@) == results_dir_of(env_override.deep_view(), manifest_dir@),
{
    proof {
        lemma_grandparent(manifest_dir@);
    }
    match env_override {
        Some(dir) => String::from_str(dir),
        None => {
            let parent = path_parent(manifest_dir);
            match parent {
                Some(p) => {
                    let root = path_parent(p.as_str());
                    match root {
                        Some(root) => {
                            let results = path_join(root.as_str(), "results");
                            path_join(results.as_str(), "raw")
                        },
                        None => String::new(),
                    }
                },
                None => String::new(),
            }
        },
    }
}

/// The directory raw results are written to, or `None` when there is no
/// override and the manifest directory lies less than two levels deep.
pub fn try_results_dir(env_override: Option<&str>, manifest_dir: &str) -> (r: Option<String>)
    ensures
        r.deep_view() == results_dir_of(env_override.deep_view(), manifest_dir@),
{
    proof {
        lemma_grandparent(manifest_dir@);
    }
    match env_override {
        Some(_) => Some(results_dir(env_override, manifest_dir)),
        None => match path_parent(manifest_dir) {
            Some(p) => match path_parent(p.as_str()) {
                Some(_) => Some(results_dir(env_override, manifest_dir)),
                None => None,
            },
            None => None,
        },
    }
}

/// The path of the CSV file of a named sample set inside `dir`.
pub fn samples_path(dir: &str, name: &str) -> (r: String)
    ensures
        r@ == path_join_of(dir@, name@ + ".csv"@),
{
    let mut file = String::from_str(name);
    file.append(".csv");
    path_join(dir, file.as_str())
}

/// One line of the CSV body: a latency and a line break.
pub open spec fn csv_line(sample: u128) -> Seq<char> {
    decimal(sample as nat).push('\n')
}

/// The lines of the CSV body, one per sample, in order.
pub open spec fn csv_body(samples: Seq<u128>) -> Seq<char>
    decreases samples.len(),
{
    if samples.len() == 0 {
        Seq::empty()
    } else {
        csv_body(samples.drop_last()) + csv_line(samples.last())
    }
}

/// A whole CSV file: the `ns` header line, then one line per sample.
pub open spec fn csv_text(samples: Seq<u128>) -> Seq<char> {
    "ns\n"@ + csv_body(samples)
}

/// The sample lines of a CSV file, without their line breaks: each sample
/// in decimal, in order.
pub open spec fn sample_lines(samples: Seq<u128>) -> Seq<Seq<char>> {
    Seq::new(samples.len(), |k: int| decimal(samples[k] as nat))
}

/// Lines put one after another, each followed by a line break.
pub open spec fn joined_lines(lines: Seq<Seq<char>>) -> Seq<char>
    decreases lines.len(),
{
    if lines.len() == 0 {
        Seq::empty()
    } else {
        joined_lines(lines.drop_last()) + lines.last().push('\n')
    }
}

proof fn lemma_csv_body_lines(samples: Seq<u128>)
    ensures
        csv_body(samples) == joined_lines(sample_lines(samples)),
    decreases samples.len(),
{
    if samples.len() > 0 {
        lemma_csv_body_lines(samples.drop_last());
        assert(sample_lines(samples).drop_last() =~= sample_lines(samples.drop_last()));
    } else {
        assert(sample_lines(samples) =~= Seq::<Seq<char>>::empty());
    }
}

/// Every line of a CSV file reads back as its sample: the text is the `ns`
/// header line, then one line per sample, each ended by a line break and
/// holding only decimal digits, and the `k`-th sample line denotes the
/// `k`-th sample.
pub proof fn lemma_csv_lines(samples: Seq<u128>)
    ensures
        csv_text(samples) == "ns\n"@ + joined_lines(sample_lines(samples)),
        sample_lines(samples).len() == samples.len(),
        forall|k: int|
            0 <= k < samples.len() ==> decimal_value(#[trigger] sample_lines(samples)[k])
                == samples[k],
        forall|k: int, j: int|
            0 <= k < samples.len() && 0 <= j < sample_lines(samples)[k].len() ==> is_digit(
                #[trigger] sample_lines(samples)[k][j],
            ),
{
    lemma_csv_body_lines(samples);
    assert forall|k: int| 0 <= k < samples.len() implies decimal_value(
        #[trigger] sample_lines(samples)[k],
    ) == samples[k] by {
        lemma_decimal_round_trip(samples[k] as nat);
    }
    assert forall|k: int, j: int|
        0 <= k < samples.len() && 0 <= j < sample_lines(samples)[k].len() implies is_digit(
        #[trigger] sample_lines(samples)[k][j],
    ) by {
        lemma_decimal_round_trip(samples[k] as nat);
    }
}

/// The content of the CSV file for `samples`.
pub fn samples_csv(samples: &[u128]) -> (r: String)
    ensures
        r@ == csv_text(samples@),
{
    let mut out = String::new();
    out.append("ns\n");
    let n: usize = samples.len();
    let mut i: usize = 0;
    assert(samples@.take(0) =~= Seq::<u128>::empty());
    while i < n
        invariant
            n == samples@.len(),
            i <= n,
            out@ == "ns\n"@ + csv_body(samples@.take(i as int)),
        decreases n - i,
    {
        push_decimal(&mut out, samples[i]);
        push_char(&mut out, '\n');
        assert(samples@.take(i + 1).drop_last() =~= samples@.take(i as int));
        assert(out@ =~= "ns\n"@ + csv_body(samples@.take(i + 1)));
        i = i + 1;
    }
    assert(samples@.take(n as int) =~= samples@);
    out
}

} // verus!
