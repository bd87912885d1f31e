//! The Case Matrix Builder: expansion of a query selection and a memory
//! limit (explicit, or the per-query default list) into an ordered sequence
//! of benchmark cases.

use vstd::prelude::*;
use crate::catalog::{QUERY_COUNT, has_default_limits, spec_default_limits, default_limits};
use crate::policy::{PoolPolicy, ConfigError};

verus! {

/// One benchmark case: a query run at one memory budget under one
/// allocation policy, with an optional row-limit override.
#[derive(Clone, Copy, Debug, PartialEq, Eq, Structural)]
pub struct BenchmarkCase {
    pub query_id: usize,
    pub memory_limit: u64,
    pub policy: PoolPolicy,
    pub row_limit: Option<usize>,
}

/// A case is well-formed when its memory budget is positive.
pub open spec fn case_wf(c: BenchmarkCase) -> bool {
    c.memory_limit > 0
}

/// The query ids a selection names: the one given id, else every catalog id
/// in catalog order.
pub open spec fn spec_selected_ids(query: Option<usize>) -> Seq<usize> {
    match query {
        Some(q) => seq![q],
        None => Seq::new(QUERY_COUNT as nat, |i: int| (i + 1) as usize),
    }
}

/// The cases one selected query expands to: exactly one case at the
/// explicit limit when one is given, else one case per entry of the query's
/// default-limit list, in list order.
pub open spec fn spec_cases_for_query(
    id: usize,
    explicit: Option<u64>,
    policy: PoolPolicy,
    row_limit: Option<usize>,
) -> Seq<BenchmarkCase>
    recommends
        explicit is None ==> has_default_limits(id),
{
    match explicit {
        Some(m) => seq![
            BenchmarkCase { query_id: id, memory_limit: m, policy, row_limit },
        ],
        None => spec_default_limits(id).map_values(
            |m: u64| BenchmarkCase { query_id: id, memory_limit: m, policy, row_limit },
        ),
    }
}

/// The whole matrix, or the first configuration error: a selected query
/// with no default-limit entry and no explicit override fails the
/// expansion at that query.
pub open spec fn spec_build_cases(
    ids: Seq<usize>,
    explicit: Option<u64>,
    policy: PoolPolicy,
    row_limit: Option<usize>,
) -> Result<Seq<BenchmarkCase>, ConfigError>
    decreases ids.len(),
{
    if ids.len() == 0 {
        Ok(Seq::empty())
    } else if explicit is None && !has_default_limits(ids[0]) {
        Err(ConfigError::MissingMemoryLimits { query_id: ids[0] })
    } else {
        match spec_build_cases(ids.drop_first(), explicit, policy, row_limit) {
            Ok(rest) => Ok(spec_cases_for_query(ids[0], explicit, policy, row_limit) + rest),
            Err(e) => Err(e),
        }
    }
}

/// With no explicit override, a query with a default-limit list expands to
/// exactly one case per listed budget, in the same order, all for that
/// query.
pub proof fn lemma_default_expansion(id: usize, policy: PoolPolicy, row_limit: Option<usize>)
    requires
        has_default_limits(id),
    ensures
        spec_cases_for_query(id, None, policy, row_limit).len() == spec_default_limits(id).len(),
        forall|i: int|
            0 <= i < spec_default_limits(id).len() ==> #[trigger] spec_cases_for_query(
                id,
                None,
                policy,
                row_limit,
            )[i] == (BenchmarkCase {
                query_id: id,
                memory_limit: spec_default_limits(id)[i],
                policy,
                row_limit,
            }),
{
}

/// With an explicit override, a query expands to exactly one case at that
/// budget, whatever its default-limit list holds.
pub proof fn lemma_override_expansion(
    id: usize,
    m: u64,
    policy: PoolPolicy,
    row_limit: Option<usize>,
)
    ensures
        spec_cases_for_query(id, Some(m), policy, row_limit).len() == 1,
        spec_cases_for_query(id, Some(m), policy, row_limit)[0] == (BenchmarkCase {
            query_id: id,
            memory_limit: m,
            policy,
            row_limit,
        }),
{
}

/// The matrix expansion is a function of its inputs alone: two expansions
/// of the same selection, limits and policy are the same sequence of cases.
pub proof fn lemma_expansion_deterministic(
    ids: Seq<usize>,
    explicit: Option<u64>,
    policy: PoolPolicy,
    row_limit: Option<usize>,
    r1: Result<Seq<BenchmarkCase>, ConfigError>,
    r2: Result<Seq<BenchmarkCase>, ConfigError>,
)
    requires
        r1 == spec_build_cases(ids, explicit, policy, row_limit),
        r2 == spec_build_cases(ids, explicit, policy, row_limit),
    ensures
        r1 == r2,
{
}

/// Every case a successful expansion emits has a positive memory budget.
pub proof fn lemma_build_cases_wf(
    ids: Seq<usize>,
    explicit: Option<u64>,
    policy: PoolPolicy,
    row_limit: Option<usize>,
)
    requires
        explicit matches Some(m) ==> m > 0,
    ensures
        spec_build_cases(ids, explicit, policy, row_limit) matches Ok(cs) ==> forall|i: int|
            0 <= i < cs.len() ==> case_wf(#[trigger] cs[i]),
    decreases ids.len(),
{
    if ids.len() == 0 {
    } else if explicit is None && !has_default_limits(ids[0]) {
    } else {
        lemma_build_cases_wf(ids.drop_first(), explicit, policy, row_limit);
        if spec_build_cases(ids, explicit, policy, row_limit) is Ok {
            crate::catalog::lemma_default_limits_wf(ids[0]);
            if explicit is None {
                lemma_default_expansion(ids[0], policy, row_limit);
            }
        }
    }
}

fn cases_for_query(
    id: usize,
    explicit: Option<u64>,
    policy: PoolPolicy,
    row_limit: Option<usize>,
) -> (r: Result<Vec<BenchmarkCase>, ConfigError>)
    ensures
        r is Ok <==> (explicit is Some || has_default_limits(id)),
        r matches Ok(v) ==> v@ == spec_cases_for_query(id, explicit, policy, row_limit),
        r is Err ==> r == Err::<Vec<BenchmarkCase>, ConfigError>(
            ConfigError::MissingMemoryLimits { query_id: id },
        ),
{
    match explicit {
        Some(m) => {
            let mut v: Vec<BenchmarkCase> = Vec::new();
            v.push(BenchmarkCase { query_id: id, memory_limit: m, policy, row_limit });
            proof {
                assert(v@ =~= spec_cases_for_query(id, explicit, policy, row_limit));
            }
            Ok(v)
        },
        None => {
            match default_limits(id) {
                None => Err(ConfigError::MissingMemoryLimits { query_id: id }),
                Some(limits) => {
                    let ghost goal = spec_cases_for_query(id, explicit, policy, row_limit);
                    let mut v: Vec<BenchmarkCase> = Vec::new();
                    let mut k: usize = 0;
                    while k < limits.len()
                        invariant
                            k <= limits.len(),
                            limits@ == spec_default_limits(id),
                            goal == spec_cases_for_query(id, None, policy, row_limit),
                            goal.len() == limits@.len(),
                            v@ =~= goal.take(k as int),
                        decreases limits.len() - k,
                    {
                        v.push(
                            BenchmarkCase {
                                query_id: id,
                                memory_limit: limits[k],
                                policy,
                                row_limit,
                            },
                        );
                        proof {
                            assert(v@ =~= goal.take(k + 1 as int));
                        }
                        k = k + 1;
                    }
                    proof {
                        assert(v@ =~= goal);
                    }
                    Ok(v)
                },
            }
        },
    }
}

fn build_cases_from(
    ids: &Vec<usize>,
    i: usize,
    explicit: Option<u64>,
    policy: PoolPolicy,
    row_limit: Option<usize>,
) -> (r: Result<Vec<BenchmarkCase>, ConfigError>)
    requires
        i <= ids.len(),
    ensures
        match spec_build_cases(ids@.skip(i as int), explicit, policy, row_limit) {
            Ok(cs) => r matches Ok(v) && v@ == cs,
            Err(e) => r == Err::<Vec<BenchmarkCase>, ConfigError>(e),
        },
    decreases ids.len() - i,
{
    let ghost tail = ids@.skip(i as int);
    if i == ids.len() {
        proof {
            assert(tail =~= Seq::<usize>::empty());
        }
        Ok(Vec::new())
    } else {
        proof {
            assert(tail[0] == ids@[i as int]);
            assert(tail.drop_first() =~= ids@.skip(i + 1 as int));
        }
        let head = cases_for_query(ids[i], explicit, policy, row_limit);
        match head {
            Err(e) => Err(e),
            Ok(mut v) => {
                match build_cases_from(ids, i + 1, explicit, policy, row_limit) {
                    Err(e) => Err(e),
                    Ok(mut rest) => {
                        v.append(&mut rest);
                        Ok(v)
                    },
                }
            },
        }
    }
}

/// Expand a query selection and a memory-limit choice into the ordered case
/// matrix.
///
/// With an explicit limit, each selected query yields exactly one case at
/// that limit. Without one, each selected query yields one case per entry
/// of its default-limit list, in list order; a selected query with no entry
/// is a configuration error and no cases are produced.
pub fn build_cases(
    query: Option<usize>,
    explicit: Option<u64>,
    policy: PoolPolicy,
    row_limit: Option<usize>,
) -> (r: Result<Vec<BenchmarkCase>, ConfigError>)
    requires
        explicit matches Some(m) ==> m > 0,
    ensures
        match spec_build_cases(spec_selected_ids(query), explicit, policy, row_limit) {
            Ok(cs) => r matches Ok(v) && v@ == cs,
            Err(e) => r == Err::<Vec<BenchmarkCase>, ConfigError>(e),
        },
        r matches Ok(v) ==> forall|i: int| 0 <= i < v@.len() ==> case_wf(#[trigger] v@[i]),
{
    let mut ids: Vec<usize> = Vec::new();
    match query {
        Some(q) => {
            ids.push(q);
        },
        None => {
            let mut id: usize = 1;
            while id <= QUERY_COUNT
                invariant
                    1 <= id <= QUERY_COUNT + 1,
                    ids@.len() == id - 1,
                    forall|j: int| 0 <= j < ids@.len() ==> #[trigger] ids@[j] == j + 1,
                decreases QUERY_COUNT + 1 - id,
            {
                ids.push(id);
                id = id + 1;
            }
        },
    }
    proof {
        assert(ids@ =~= spec_selected_ids(query));
        lemma_build_cases_wf(spec_selected_ids(query), explicit, policy, row_limit);
        assert(ids@.skip(0) =~= ids@);
    }
    build_cases_from(&ids, 0, explicit, policy, row_limit)
}

} // verus!
