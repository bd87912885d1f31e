//! The fixed, ordered catalog of sort queries and the per-query table of
//! default memory limits.

use vstd::prelude::*;

verus! {

/// Number of queries in the catalog. Query ids are 1-indexed and dense.
pub const QUERY_COUNT: usize = 2;

/// One mebibyte, the unit the default memory limits are stated in.
pub const MIB: u64 = 1024 * 1024;

/// Sort query 1: one sort key (INTEGER, low cardinality) plus one payload
/// column.
pub const SORT_QUERY_ONE: &'static str = r#"
        SELECT l_linenumber, l_partkey
        FROM lineitem
        ORDER BY l_linenumber
        "#;

/// Sort query 2: one sort key (BIGINT, high cardinality) plus one payload
/// column.
pub const SORT_QUERY_TWO: &'static str = r#"
        SELECT l_orderkey, l_partkey
        FROM lineitem
        ORDER BY l_orderkey
        "#;

/// The single table every catalog query reads from.
pub const SORT_TABLE: &'static str = "lineitem";

/// Whether `id` names a query of the catalog.
pub open spec fn in_catalog(id: usize) -> bool {
    1 <= id <= QUERY_COUNT
}

/// The SQL text of catalog query `id`.
pub open spec fn spec_query_text(id: usize) -> Seq<char>
    recommends
        in_catalog(id),
{
    if id == 1 {
        SORT_QUERY_ONE@
    } else {
        SORT_QUERY_TWO@
    }
}

/// Resolve the SQL text of a query by its 1-indexed id.
pub fn query_text(id: usize) -> (r: Option<&'static str>)
    ensures
        r is Some <==> in_catalog(id),
        r matches Some(s) ==> s@ == spec_query_text(id),
{
    if id == 1 {
        Some(SORT_QUERY_ONE)
    } else if id == 2 {
        Some(SORT_QUERY_TWO)
    } else {
        None
    }
}

/// Whether the default-limit table has an entry for query `id`.
pub open spec fn has_default_limits(id: usize) -> bool {
    id == 1 || id == 2
}

/// The ordered default memory-limit list of query `id`, in bytes,
/// descending by size.
pub open spec fn spec_default_limits(id: usize) -> Seq<u64>
    recommends
        has_default_limits(id),
{
    if id == 1 {
        seq![(64 * MIB) as u64, (32 * MIB) as u64, (16 * MIB) as u64]
    } else {
        seq![
            (512 * MIB) as u64,
            (256 * MIB) as u64,
            (128 * MIB) as u64,
            (64 * MIB) as u64,
            (32 * MIB) as u64,
        ]
    }
}

/// Every query with a default-limit entry is a catalog query, and every
/// default limit is a positive byte count.
pub proof fn lemma_default_limits_wf(id: usize)
    ensures
        has_default_limits(id) ==> in_catalog(id),
        forall|i: int|
            0 <= i < spec_default_limits(id).len() ==> 0 < #[trigger] spec_default_limits(id)[i],
{
}

/// Look up the default memory-limit list of query `id`.
pub fn default_limits(id: usize) -> (r: Option<Vec<u64>>)
    ensures
        r is Some <==> has_default_limits(id),
        r matches Some(v) ==> v@ == spec_default_limits(id),
{
    if id == 1 {
        let mut v: Vec<u64> = Vec::new();
        v.push(64 * MIB);
        v.push(32 * MIB);
        v.push(16 * MIB);
        proof {
            assert(v@ =~= spec_default_limits(1));
        }
        Some(v)
    } else if id == 2 {
        let mut v: Vec<u64> = Vec::new();
        v.push(512 * MIB);
        v.push(256 * MIB);
        v.push(128 * MIB);
        v.push(64 * MIB);
        v.push(32 * MIB);
        proof {
            assert(v@ =~= spec_default_limits(2));
        }
        Some(v)
    } else {
        None
    }
}

} // verus!
