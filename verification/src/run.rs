//! The run-level orchestration decisions: the options one invocation runs
//! under, and their expansion into a validated run plan before any engine
//! session is built.

use vstd::prelude::*;
use crate::binder::DatasetBinding;
use crate::cases::{BenchmarkCase, spec_build_cases, spec_selected_ids, build_cases, case_wf};
use crate::policy::{PoolPolicy, ConfigError, spec_parse_policy, parse_policy};

verus! {

/// The options of one invocation, as plain values: the query selection,
/// the dataset root, the optional report sink, the table mode and sort
/// claim, the optional row limit, and the memory options.
pub struct RunOpt {
    /// Run only this 1-indexed query; `None` runs every catalog query.
    pub query: Option<usize>,
    /// Root path of the dataset files.
    pub path: String,
    /// Where to write the serialized run report, if anywhere.
    pub output_path: Option<String>,
    /// Load the table into memory before executing the query.
    pub mem_table: bool,
    /// Claim that the backing files are sorted ascending on the table's
    /// first column.
    pub sorted: bool,
    /// Append a row-limit clause to every query.
    pub limit: Option<usize>,
    /// How many times each case runs its query.
    pub iterations: usize,
    /// Partition count for a materialized table; the machine's parallelism
    /// when absent.
    pub partitions: Option<usize>,
    /// Run every selected query once at this budget instead of its
    /// default-limit list.
    pub memory_limit: Option<u64>,
    /// The allocation-policy tag.
    pub mem_pool_type: String,
    /// Render the plans of each query for inspection.
    pub debug: bool,
}

/// A validated plan for one run: the parsed policy and the ordered case
/// matrix.
pub struct RunPlan {
    pub policy: PoolPolicy,
    pub cases: Vec<BenchmarkCase>,
}

/// The plan an option set expands to, or its first configuration error:
/// an unrecognized policy tag, else a selected query with no default-limit
/// entry and no override.
pub open spec fn spec_plan(
    query: Option<usize>,
    memory_limit: Option<u64>,
    policy_tag: Seq<char>,
    row_limit: Option<usize>,
) -> Result<(PoolPolicy, Seq<BenchmarkCase>), ConfigError> {
    match spec_parse_policy(policy_tag) {
        None => Err(ConfigError::UnknownPolicy),
        Some(p) => match spec_build_cases(spec_selected_ids(query), memory_limit, p, row_limit) {
            Ok(cs) => Ok((p, cs)),
            Err(e) => Err(e),
        },
    }
}

/// The plan is a function of the options alone: two runs planned from the
/// same options get the same policy and the same cases in the same order.
pub proof fn lemma_plan_deterministic(
    query: Option<usize>,
    memory_limit: Option<u64>,
    policy_tag: Seq<char>,
    row_limit: Option<usize>,
    r1: Result<(PoolPolicy, Seq<BenchmarkCase>), ConfigError>,
    r2: Result<(PoolPolicy, Seq<BenchmarkCase>), ConfigError>,
)
    requires
        r1 == spec_plan(query, memory_limit, policy_tag, row_limit),
        r2 == spec_plan(query, memory_limit, policy_tag, row_limit),
    ensures
        r1 == r2,
{
}

impl RunOpt {
    /// How many iterations each case runs.
    pub fn iterations(&self) -> (r: usize)
        ensures
            r == self.iterations,
    {
        self.iterations
    }

    /// The partition count for a materialized table: the configured count,
    /// else the machine's available parallelism.
    pub fn partitions(&self) -> (r: usize)
        ensures
            self.partitions matches Some(p) ==> r == p,
            self.partitions is None ==> r >= 1,
    {
        match self.partitions {
            Some(p) => p,
            None => crate::binder::available_parallelism(),
        }
    }

    /// Plan the binding of the benchmark table for this run's options.
    pub fn binding(&self) -> (r: DatasetBinding)
        requires
            self.partitions matches Some(p) ==> p >= 1,
        ensures
            r.table_name@ == crate::catalog::SORT_TABLE@,
            r.location@ == self.path@ + "/"@ + crate::catalog::SORT_TABLE@,
            r.sort_claim == (if self.sorted {
                crate::binder::SortClaim::AscendingFirstColumn
            } else {
                crate::binder::SortClaim::Unclaimed
            }),
            !self.mem_table ==> r.mode == crate::binder::TableMode::Lazy,
            self.mem_table ==> (r.mode matches crate::binder::TableMode::Materialized {
                partitions: p,
            } && (match self.partitions {
                Some(q) => p == q,
                None => p >= 1,
            })),
            r.wf(),
    {
        DatasetBinding::plan(self.path.as_str(), self.mem_table, self.sorted, self.partitions)
    }

    /// Validate the options and expand them into the run plan. Fails fast,
    /// before any session is built, on an unrecognized policy tag or on a
    /// selected query with no default-limit entry and no override.
    pub fn plan(&self) -> (r: Result<RunPlan, ConfigError>)
        requires
            self.memory_limit matches Some(m) ==> m > 0,
        ensures
            match spec_plan(self.query, self.memory_limit, self.mem_pool_type@, self.limit) {
                Ok(pcs) => r matches Ok(plan) && plan.policy == pcs.0 && plan.cases@ == pcs.1,
                Err(e) => r == Err::<RunPlan, ConfigError>(e),
            },
            r matches Ok(plan) ==> forall|i: int|
                0 <= i < plan.cases@.len() ==> case_wf(#[trigger] plan.cases@[i]),
    {
        let policy = match parse_policy(self.mem_pool_type.as_str()) {
            Ok(p) => p,
            Err(e) => {
                return Err(e);
            },
        };
        match build_cases(self.query, self.memory_limit, policy, self.limit) {
            Ok(cases) => Ok(RunPlan { policy, cases }),
            Err(e) => Err(e),
        }
    }
}

} // verus!
