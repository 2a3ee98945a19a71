use otterbrix_bench::data::{data_dir, try_data_dir};
use otterbrix_bench::{bench_config, dist_root, try_dist_root, LOG_OFF};

#[test]
fn bench_config_turns_logging_and_durability_off() {
    let c = bench_config("/tmp/s1_ob_abc");
    assert_eq!(c.level, LOG_OFF);
    assert_eq!(c.level, 6);
    assert_eq!(c.log_path, "/tmp/s1_ob_abc/log");
    assert_eq!(c.wal_path, "/tmp/s1_ob_abc/wal");
    assert_eq!(c.disk_path, "/tmp/s1_ob_abc/disk");
    assert_eq!(c.main_path, "/tmp/s1_ob_abc/main");
    assert!(!c.wal_on);
    assert!(!c.disk_on);
    assert!(!c.sync_to_disk);
}

#[test]
fn dist_root_is_the_parent_of_the_library_dir() {
    assert_eq!(dist_root("/w/.workdir/dist/abc123/lib"), "/w/.workdir/dist/abc123");
    assert_eq!(try_dist_root("lib"), Some(String::new()));
}

#[test]
fn dist_root_of_a_root_or_empty_dir_is_absent() {
    assert_eq!(try_dist_root("/"), None);
    assert_eq!(try_dist_root(""), None);
}

#[test]
fn data_dir_is_under_the_benchmark_root() {
    assert_eq!(data_dir("/w/benchmarks/code/rust"), "/w/benchmarks/data");
    assert_eq!(try_data_dir("/w/benchmarks/code/rust"), Some("/w/benchmarks/data".to_string()));
}

#[test]
fn data_dir_needs_two_levels() {
    assert_eq!(try_data_dir("rust"), None);
    assert_eq!(try_data_dir("a/b"), Some("data".to_string()));
}

#[test]
fn dist_root_is_a_shorter_prefix_of_the_library_dir() {
    for lib in ["/w/.workdir/dist/abc123/lib", "dist/lib/", "a//b", "./lib", "lib"] {
        let root = try_dist_root(lib).expect("has a parent");
        assert!(lib.starts_with(root.as_str()) && root.len() < lib.len(), "{lib} -> {root}");
        assert!(std::path::Path::new(lib).starts_with(&root));
    }
}
