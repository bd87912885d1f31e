//! Tests of the Run Reporter and the case labels.

use spill_bench::labels::case_label;
use spill_bench::report::{mean_elapsed, BenchmarkRun};
use spill_bench::runner::IterationResult;
use spill_bench::strutil::{str_eq, u64_to_decimal, usize_to_decimal};

const MIB: u64 = 1024 * 1024;

#[test]
fn decimal_rendering() {
    assert_eq!(u64_to_decimal(0), "0");
    assert_eq!(u64_to_decimal(7), "7");
    assert_eq!(u64_to_decimal(10), "10");
    assert_eq!(u64_to_decimal(1_234_567_890), "1234567890");
    assert_eq!(u64_to_decimal(u64::MAX), "18446744073709551615");
    assert_eq!(usize_to_decimal(100), "100");
}

#[test]
fn string_equality() {
    assert!(str_eq("fair", "fair"));
    assert!(!str_eq("fair", "greedy"));
    assert!(!str_eq("fair", "fai"));
    assert!(str_eq("", ""));
}

#[test]
fn labels_combine_query_and_budget() {
    assert_eq!(case_label(1, 64 * MIB), "1(64.0 MB)");
    assert_eq!(case_label(2, 512 * MIB), "2(512.0 MB)");
    assert_eq!(case_label(2, 100 * MIB), "2(100.0 MB)");
    assert_eq!(case_label(1, 1000), "1(1000.0 B)");
}

#[test]
fn mean_of_no_results_is_absent() {
    assert_eq!(mean_elapsed(&Vec::new()), None);
}

#[test]
fn mean_is_arithmetic_mean() {
    let results = vec![
        IterationResult { elapsed_nanos: 10, row_count: 5 },
        IterationResult { elapsed_nanos: 20, row_count: 5 },
        IterationResult { elapsed_nanos: 31, row_count: 5 },
    ];
    assert_eq!(mean_elapsed(&results), Some(20));
}

#[test]
fn run_accumulates_cases_in_order() {
    let mut run = BenchmarkRun::new();
    run.start_new_case(case_label(1, 64 * MIB));
    run.write_iter(1_000, 6000);
    run.write_iter(3_000, 6000);
    run.record_case(
        case_label(1, 32 * MIB),
        vec![IterationResult { elapsed_nanos: 5_000, row_count: 6000 }],
    );

    let summaries = run.finalize();
    assert_eq!(summaries.len(), 2);

    assert_eq!(summaries[0].label, "1(64.0 MB)");
    assert_eq!(summaries[0].iteration_count, 2);
    assert_eq!(summaries[0].results.len(), 2);
    assert_eq!(summaries[0].results[0].elapsed_nanos, 1_000);
    assert_eq!(summaries[0].results[1].elapsed_nanos, 3_000);
    assert_eq!(summaries[0].mean_elapsed_nanos, Some(2_000));

    assert_eq!(summaries[1].label, "1(32.0 MB)");
    assert_eq!(summaries[1].iteration_count, 1);
    assert_eq!(summaries[1].results[0].row_count, 6000);
    assert_eq!(summaries[1].mean_elapsed_nanos, Some(5_000));
}

#[test]
fn empty_case_has_no_mean() {
    let mut run = BenchmarkRun::new();
    run.start_new_case(String::from("1(16.0 MB)"));
    let summaries = run.finalize();
    assert_eq!(summaries.len(), 1);
    assert_eq!(summaries[0].iteration_count, 0);
    assert_eq!(summaries[0].mean_elapsed_nanos, None);
}
