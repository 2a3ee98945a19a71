//! Shared machinery of the otterbrix benchmark suite: the engine
//! configuration every run uses, the deterministic data set, the run plans
//! of the ten scenarios, the SQL they send and the CSV files they leave.
use vstd::prelude::*;

pub mod csv;
pub mod data;
pub mod names;
pub mod paths;
pub mod plan;
pub mod scenarios;
pub mod sql;
pub mod text;

use crate::paths::{path_join, path_join_of, path_parent, path_parent_of};

verus! {

/// Log level that switches the engine's logger off.
pub const LOG_OFF: i32 = 6;

/// The engine configuration of a benchmark run, as plain values: the log
/// level, the four directories the engine may use, and the three durability
/// switches.
pub struct BenchConfig {
    pub level: i32,
    pub log_path: String,
    pub wal_path: String,
    pub disk_path: String,
    pub main_path: String,
    pub wal_on: bool,
    pub disk_on: bool,
    pub sync_to_disk: bool,
}

/// The configuration every scenario opens the engine with: logging off, the
/// four directories `log`, `wal`, `disk` and `main` under `base`, and every
/// durability subsystem (write-ahead log, disk storage, syncing) off.
pub fn bench_config(base: &str) -> (c: BenchConfig)
    ensures
        c.level == LOG_OFF,
        c.log_path@ == path_join_of(base@, "log"@),
        c.wal_path@ == path_join_of(base@, "wal"@),
        c.disk_path@ == path_join_of(base@, "disk"@),
        c.main_path@ == path_join_of(base@, "main"@),
        !c.wal_on,
        !c.disk_on,
        !c.sync_to_disk,
{
    BenchConfig {
        level: LOG_OFF,
        log_path: path_join(base, "log"),
        wal_path: path_join(base, "wal"),
        disk_path: path_join(base, "disk"),
        main_path: path_join(base, "main"),
        wal_on: false,
        disk_on: false,
        sync_to_disk: false,
    }
}

/// The root of the engine distribution: the parent of the directory that
/// holds the engine's shared library, so a strictly shorter prefix of it.
pub fn dist_root(lib_dir: &str) -> (r: String)
    requires
        path_parent_of(lib_dir@) is Some,
    ensures
        Some(r@) == path_parent_of(lib_dir@),
        r@.len() < lib_dir@.len(),
        lib_dir@.take(r@.len() as int) == r@,
{
    match path_parent(lib_dir) {
        Some(root) => root,
        None => String::new(),
    }
}

/// The root of the engine distribution, or `None` when the library
/// directory has no parent.
pub fn try_dist_root(lib_dir: &str) -> (r: Option<String>)
    ensures
        r.deep_view() == path_parent_of(lib_dir@),
        r matches Some(p) ==> p@.len() < lib_dir@.len() && lib_dir@.take(p@.len() as int) == p@,
{
    match path_parent(lib_dir) {
        Some(_) => Some(dist_root(lib_dir)),
        None => None,
    }
}

} // verus!
