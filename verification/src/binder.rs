//! The Dataset Binder's decisions: where the table's files live, whether
//! the backing files are claimed to be sorted, and whether the table is
//! materialized in memory before the case runs.

use vstd::prelude::*;
use crate::catalog::SORT_TABLE;

verus! {

/// A caller-provided claim about the physical order of the backing files.
/// `AscendingFirstColumn` promises the engine that the files are already
/// sorted ascending on the table's first column; it never causes a re-sort,
/// and a false claim can silently produce wrong results downstream.
#[derive(Clone, Copy, Debug, PartialEq, Eq, Structural)]
pub enum SortClaim {
    Unclaimed,
    AscendingFirstColumn,
}

/// How the table is presented to the engine: scanned lazily from its files,
/// or fully materialized in memory across a number of partitions before the
/// case runs.
#[derive(Clone, Copy, Debug, PartialEq, Eq, Structural)]
pub enum TableMode {
    Lazy,
    Materialized { partitions: usize },
}

/// Everything the engine session needs to register the benchmark table.
pub struct DatasetBinding {
    pub table_name: &'static str,
    pub location: String,
    pub sort_claim: SortClaim,
    pub mode: TableMode,
}

/// Relies on `datafusion_common::utils::get_available_parallelism`: reports
/// the machine's available parallelism, and at least 1 whatever the machine
/// reports.
#[verifier::external_body]
pub(crate) fn available_parallelism() -> (r: usize)
    ensures
        1 <= r,
{
    datafusion_common::utils::get_available_parallelism()
}

impl DatasetBinding {
    /// A binding is well-formed when a materialized table has at least one
    /// partition.
    pub open spec fn wf(&self) -> bool {
        self.mode matches TableMode::Materialized { partitions } ==> partitions >= 1
    }

    /// Plan the binding of the benchmark table under the dataset root.
    ///
    /// The table's files are at `{root}/{table}`; the sort claim is made
    /// exactly when `sorted` is set; the table is materialized exactly when
    /// `mem_table` is set, across the given partition count, or across the
    /// machine's available parallelism when none is given.
    pub fn plan(root: &str, mem_table: bool, sorted: bool, partitions: Option<usize>) -> (r:
        DatasetBinding)
        requires
            partitions matches Some(p) ==> p >= 1,
        ensures
            r.table_name@ == SORT_TABLE@,
            r.location@ == root@ + "/"@ + SORT_TABLE@,
            r.sort_claim == (if sorted {
                SortClaim::AscendingFirstColumn
            } else {
                SortClaim::Unclaimed
            }),
            !mem_table ==> r.mode == TableMode::Lazy,
            mem_table ==> (r.mode matches TableMode::Materialized { partitions: p } && (
            match partitions {
                Some(q) => p == q,
                None => p >= 1,
            })),
            r.wf(),
    {
        let mut location = root.to_owned();
        location.append("/");
        location.append(SORT_TABLE);
        let sort_claim = if sorted {
            SortClaim::AscendingFirstColumn
        } else {
            SortClaim::Unclaimed
        };
        let mode = if mem_table {
            let p = match partitions {
                Some(q) => q,
                None => available_parallelism(),
            };
            TableMode::Materialized { partitions: p }
        } else {
            TableMode::Lazy
        };
        DatasetBinding { table_name: SORT_TABLE, location, sort_claim, mode }
    }
}

} // verus!
