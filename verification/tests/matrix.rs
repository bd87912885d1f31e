//! Tests of the Case Matrix Builder.

use spill_bench::cases::{build_cases, BenchmarkCase};
use spill_bench::policy::{ConfigError, PoolPolicy};

const MIB: u64 = 1024 * 1024;

#[test]
fn default_expansion_query_one() {
    let cases = build_cases(Some(1), None, PoolPolicy::Greedy, None).unwrap();
    assert_eq!(cases.len(), 3);
    let budgets: Vec<u64> = cases.iter().map(|c| c.memory_limit).collect();
    assert_eq!(budgets, vec![64 * MIB, 32 * MIB, 16 * MIB]);
    for c in &cases {
        assert_eq!(c.query_id, 1);
        assert_eq!(c.policy, PoolPolicy::Greedy);
        assert_eq!(c.row_limit, None);
    }
}

#[test]
fn default_expansion_query_two() {
    let cases = build_cases(Some(2), None, PoolPolicy::FairShare, None).unwrap();
    let budgets: Vec<u64> = cases.iter().map(|c| c.memory_limit).collect();
    assert_eq!(budgets, vec![512 * MIB, 256 * MIB, 128 * MIB, 64 * MIB, 32 * MIB]);
    for c in &cases {
        assert_eq!(c.query_id, 2);
    }
}

#[test]
fn explicit_limit_overrides_default_list() {
    let cases = build_cases(Some(2), Some(100 * MIB), PoolPolicy::Greedy, None).unwrap();
    assert_eq!(cases.len(), 1);
    assert_eq!(
        cases[0],
        BenchmarkCase {
            query_id: 2,
            memory_limit: 100 * MIB,
            policy: PoolPolicy::Greedy,
            row_limit: None,
        }
    );
}

#[test]
fn all_queries_no_override() {
    let cases = build_cases(None, None, PoolPolicy::Greedy, Some(7)).unwrap();
    assert_eq!(cases.len(), 8);
    let keyed: Vec<(usize, u64)> = cases.iter().map(|c| (c.query_id, c.memory_limit)).collect();
    assert_eq!(
        keyed,
        vec![
            (1, 64 * MIB),
            (1, 32 * MIB),
            (1, 16 * MIB),
            (2, 512 * MIB),
            (2, 256 * MIB),
            (2, 128 * MIB),
            (2, 64 * MIB),
            (2, 32 * MIB),
        ]
    );
    for c in &cases {
        assert_eq!(c.row_limit, Some(7));
    }
}

#[test]
fn all_queries_explicit_limit() {
    let cases = build_cases(None, Some(10 * MIB), PoolPolicy::FairShare, None).unwrap();
    assert_eq!(cases.len(), 2);
    assert_eq!(cases[0].query_id, 1);
    assert_eq!(cases[1].query_id, 2);
    for c in &cases {
        assert_eq!(c.memory_limit, 10 * MIB);
    }
}

#[test]
fn unknown_query_without_override_is_config_error() {
    let err = build_cases(Some(3), None, PoolPolicy::Greedy, None).unwrap_err();
    assert_eq!(err, ConfigError::MissingMemoryLimits { query_id: 3 });
}
