//! Tests of the Case Runner: SQL assembly and the iteration state machine.

use spill_bench::cases::BenchmarkCase;
use spill_bench::catalog::query_text;
use spill_bench::policy::PoolPolicy;
use spill_bench::runner::{case_sql, CaseExecution};

fn case(query_id: usize, row_limit: Option<usize>) -> BenchmarkCase {
    BenchmarkCase { query_id, memory_limit: 1024, policy: PoolPolicy::Greedy, row_limit }
}

#[test]
fn sql_without_row_limit_is_catalog_text() {
    let sql = case_sql(&case(1, None)).unwrap();
    assert_eq!(sql, query_text(1).unwrap());
    assert!(sql.contains("SELECT l_linenumber, l_partkey"));
    assert!(sql.contains("ORDER BY l_linenumber"));
}

#[test]
fn sql_with_row_limit_appends_clause() {
    let sql = case_sql(&case(2, Some(1000))).unwrap();
    let expected = format!("{} LIMIT 1000", query_text(2).unwrap());
    assert_eq!(sql, expected);
    assert!(sql.contains("ORDER BY l_orderkey"));
}

#[test]
fn sql_of_unknown_query_is_none() {
    assert!(case_sql(&case(0, None)).is_none());
    assert!(case_sql(&case(3, None)).is_none());
}

#[test]
fn iterations_run_in_order_and_keep_row_counts() {
    let mut exec = CaseExecution::new(case(1, None), 3);
    assert_eq!(exec.next_iteration(), Some(0));
    exec.record_success(1_000_000, 6000);
    assert_eq!(exec.next_iteration(), Some(1));
    exec.record_success(2_000_000, 6000);
    assert_eq!(exec.next_iteration(), Some(2));
    exec.record_success(3_000_000, 6000);
    assert_eq!(exec.next_iteration(), None);

    let results = exec.outcome().ok().unwrap();
    assert_eq!(results.len(), 3);
    let rows: Vec<usize> = results.iter().map(|r| r.row_count).collect();
    assert_eq!(rows, vec![6000, 6000, 6000]);
    let elapsed: Vec<u64> = results.iter().map(|r| r.elapsed_nanos).collect();
    assert_eq!(elapsed, vec![1_000_000, 2_000_000, 3_000_000]);
}

#[test]
fn failure_aborts_case_and_reports_iteration() {
    let mut exec = CaseExecution::new(case(1, None), 3);
    exec.record_success(1_000_000, 6000);
    exec.record_failure(String::from("Resources exhausted"));
    assert_eq!(exec.next_iteration(), None);

    let failure = exec.outcome().err().unwrap();
    assert_eq!(failure.iteration, 1);
    assert_eq!(failure.message, "Resources exhausted");
}

#[test]
fn zero_iterations_finish_immediately() {
    let exec = CaseExecution::new(case(2, None), 0);
    assert_eq!(exec.next_iteration(), None);
    let results = exec.outcome().ok().unwrap();
    assert!(results.is_empty());
}
