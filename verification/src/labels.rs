//! Case labels for the run report: the query id together with the
//! human-readable form of its memory budget.

use vstd::prelude::*;
use crate::strutil::{spec_decimal, u64_to_decimal};

verus! {

/// What `datafusion_common::human_readable_size` renders a byte count as.
pub uninterp spec fn human_size_of(bytes: u64) -> Seq<char>;

/// Relies on `datafusion_common::human_readable_size`: renders a byte count
/// in a fixed human-readable form; the result depends on the byte count
/// alone.
#[verifier::external_body]
fn human_size(bytes: u64) -> (r: String)
    ensures
        r@ == human_size_of(bytes),
{
    datafusion_common::human_readable_size(bytes as usize)
}

/// The label a case is reported under: the query id, then the budget in
/// human-readable form in parentheses.
pub open spec fn spec_case_label(query_id: usize, memory_limit: u64) -> Seq<char> {
    spec_decimal(query_id as int) + "("@ + human_size_of(memory_limit) + ")"@
}

/// Build the label of a case.
pub fn case_label(query_id: usize, memory_limit: u64) -> (r: String)
    ensures
        r@ == spec_case_label(query_id, memory_limit),
{
    let mut s = u64_to_decimal(query_id as u64);
    s.append("(");
    let h = human_size(memory_limit);
    s.append(h.as_str());
    s.append(")");
    proof {
        assert(s@ =~= spec_case_label(query_id, memory_limit));
    }
    s
}

} // verus!
