use otterbrix_bench::csv::{results_dir, samples_csv, samples_path, try_results_dir};
use otterbrix_bench::text::{decimal_string, str_equal};

#[test]
fn decimal_renders_zero_and_large_numbers() {
    assert_eq!(decimal_string(0), "0");
    assert_eq!(decimal_string(7), "7");
    assert_eq!(decimal_string(10), "10");
    assert_eq!(decimal_string(1234567890123), "1234567890123");
    assert_eq!(decimal_string(u128::MAX), u128::MAX.to_string());
}

#[test]
fn str_equal_compares_characters() {
    assert!(str_equal("update", "update"));
    assert!(!str_equal("update", "Update"));
    assert!(!str_equal("update", "updat"));
    assert!(str_equal("", ""));
    assert!(str_equal("héllo", "héllo"));
}

#[test]
fn csv_of_no_samples_is_the_header() {
    assert_eq!(samples_csv(&[]), "ns\n");
}

#[test]
fn csv_has_one_line_per_sample() {
    assert_eq!(samples_csv(&[1, 20, 300]), "ns\n1\n20\n300\n");
    let text = samples_csv(&[5, u128::MAX]);
    let lines: Vec<&str> = text.lines().collect();
    assert_eq!(lines, vec!["ns", "5", &u128::MAX.to_string()]);
    let back: Vec<u128> = lines[1..].iter().map(|l| l.parse().unwrap()).collect();
    assert_eq!(back, vec![5, u128::MAX]);
}

#[test]
fn samples_path_adds_the_csv_extension() {
    assert_eq!(samples_path("/data/raw", "s1_headline_sys"), "/data/raw/s1_headline_sys.csv");
    assert_eq!(samples_path("raw/", "s6_open_sqlx"), "raw/s6_open_sqlx.csv");
}

#[test]
fn results_dir_prefers_the_override() {
    assert_eq!(results_dir(Some("/elsewhere"), "/w/benchmarks/code/rust"), "/elsewhere");
    assert_eq!(try_results_dir(Some("out"), "rust"), Some("out".to_string()));
}

#[test]
fn results_dir_defaults_under_the_benchmark_root() {
    assert_eq!(
        results_dir(None, "/w/benchmarks/code/rust"),
        "/w/benchmarks/results/raw"
    );
    assert_eq!(
        try_results_dir(None, "/w/benchmarks/code/rust"),
        Some("/w/benchmarks/results/raw".to_string())
    );
}

#[test]
fn results_dir_needs_two_levels_without_override() {
    assert_eq!(try_results_dir(None, "rust"), None);
    assert_eq!(try_results_dir(None, "/"), None);
    assert_eq!(try_results_dir(None, ""), None);
}

#[test]
fn each_csv_line_parses_back_to_its_sample() {
    let samples: Vec<u128> = vec![0, 9, 10, 1_234_567, u128::MAX];
    let text = samples_csv(&samples);
    assert!(text.ends_with('\n'));
    let lines: Vec<&str> = text.lines().collect();
    assert_eq!(lines[0], "ns");
    assert_eq!(lines.len(), samples.len() + 1);
    for (k, s) in samples.iter().enumerate() {
        assert_eq!(lines[k + 1].parse::<u128>(), Ok(*s));
    }
}
