//! Tests of the dataset binding and the run-level plan.

use spill_bench::binder::{DatasetBinding, SortClaim, TableMode};
use spill_bench::policy::{ConfigError, PoolPolicy};
use spill_bench::run::RunOpt;

const MIB: u64 = 1024 * 1024;

fn opt() -> RunOpt {
    RunOpt {
        query: None,
        path: String::from("/data/tpch"),
        output_path: None,
        mem_table: false,
        sorted: false,
        limit: None,
        iterations: 3,
        partitions: None,
        memory_limit: None,
        mem_pool_type: String::from("fair"),
        debug: false,
    }
}

#[test]
fn lazy_binding_points_at_table_files() {
    let b = DatasetBinding::plan("/data/tpch", false, false, None);
    assert_eq!(b.table_name, "lineitem");
    assert_eq!(b.location, "/data/tpch/lineitem");
    assert_eq!(b.sort_claim, SortClaim::Unclaimed);
    assert_eq!(b.mode, TableMode::Lazy);
}

#[test]
fn sorted_flag_claims_ascending_first_column() {
    let b = DatasetBinding::plan("/data/tpch", false, true, None);
    assert_eq!(b.sort_claim, SortClaim::AscendingFirstColumn);
}

#[test]
fn materialized_binding_uses_given_partitions() {
    let b = DatasetBinding::plan("/data/tpch", true, false, Some(4));
    assert_eq!(b.mode, TableMode::Materialized { partitions: 4 });
}

#[test]
fn materialized_binding_defaults_to_machine_parallelism() {
    let b = DatasetBinding::plan("/data/tpch", true, false, None);
    match b.mode {
        TableMode::Materialized { partitions } => assert!(partitions >= 1),
        TableMode::Lazy => panic!("expected a materialized table"),
    }
}

#[test]
fn plan_expands_whole_catalog() {
    let o = opt();
    let plan = o.plan().unwrap();
    assert_eq!(plan.policy, PoolPolicy::FairShare);
    assert_eq!(plan.cases.len(), 8);
    assert_eq!(plan.cases[0].query_id, 1);
    assert_eq!(plan.cases[0].memory_limit, 64 * MIB);
    assert_eq!(plan.cases[7].query_id, 2);
    assert_eq!(plan.cases[7].memory_limit, 32 * MIB);
}

#[test]
fn plan_fails_fast_on_unknown_policy() {
    let mut o = opt();
    o.mem_pool_type = String::from("arena");
    assert_eq!(o.plan().err().unwrap(), ConfigError::UnknownPolicy);
}

#[test]
fn plan_fails_fast_on_missing_limits() {
    let mut o = opt();
    o.query = Some(9);
    assert_eq!(
        o.plan().err().unwrap(),
        ConfigError::MissingMemoryLimits { query_id: 9 }
    );
}

#[test]
fn plan_determinism_same_options_same_cases() {
    let a = opt().plan().unwrap();
    let b = opt().plan().unwrap();
    assert_eq!(a.policy, b.policy);
    assert_eq!(a.cases, b.cases);
}

#[test]
fn partitions_resolve_to_configured_or_machine() {
    let o = opt();
    assert!(o.partitions() >= 1);
    let mut o2 = opt();
    o2.partitions = Some(5);
    assert_eq!(o2.partitions(), 5);
}

#[test]
fn binding_through_run_options() {
    let mut o = opt();
    o.mem_table = true;
    o.partitions = Some(2);
    let b = o.binding();
    assert_eq!(b.location, "/data/tpch/lineitem");
    assert_eq!(b.mode, TableMode::Materialized { partitions: 2 });
}
