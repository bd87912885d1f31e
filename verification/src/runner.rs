//! The Case Runner's decisions: the SQL text a case submits, and the
//! iteration-by-iteration bookkeeping of one running case. The engine's
//! planning and stream draining happen outside; the runner decides what to
//! submit, which iteration comes next, and what the case's outcome is.

use vstd::prelude::*;
use crate::cases::BenchmarkCase;
use crate::catalog::{in_catalog, spec_query_text, query_text};
use crate::strutil::{spec_decimal, usize_to_decimal};

verus! {

/// What one iteration of a case produced: its wall-clock duration and the
/// number of rows drained from the result stream.
#[derive(Clone, Copy, Debug, PartialEq, Eq, Structural)]
pub struct IterationResult {
    pub elapsed_nanos: u64,
    pub row_count: usize,
}

/// Why and where a case stopped: the index of the iteration that failed and
/// the engine's message.
pub struct CaseFailure {
    pub iteration: usize,
    pub message: String,
}

/// The SQL text a case submits: the catalog query's text, with a row-limit
/// clause appended when the case carries one.
pub open spec fn spec_case_sql(c: BenchmarkCase) -> Seq<char>
    recommends
        in_catalog(c.query_id),
{
    match c.row_limit {
        Some(n) => spec_query_text(c.query_id) + " LIMIT "@ + spec_decimal(n as int),
        None => spec_query_text(c.query_id),
    }
}

/// Resolve the SQL text of a case; a case whose query id is outside the
/// catalog has none.
pub fn case_sql(c: &BenchmarkCase) -> (r: Option<String>)
    ensures
        r is Some <==> in_catalog(c.query_id),
        r matches Some(s) ==> s@ == spec_case_sql(*c),
{
    match query_text(c.query_id) {
        None => None,
        Some(base) => {
            let mut s = base.to_owned();
            match c.row_limit {
                Some(n) => {
                    s.append(" LIMIT ");
                    let d = usize_to_decimal(n);
                    s.append(d.as_str());
                    proof {
                        assert(s@ =~= spec_case_sql(*c));
                    }
                },
                None => {},
            }
            Some(s)
        },
    }
}

/// The sequential execution state of one case: how many iterations it was
/// asked for, which have completed, and whether one failed.
///
/// Iterations are strictly sequential: the next iteration exists only when
/// none has failed and fewer than the asked-for number have completed. A
/// failure aborts the case; completed iterations before it are kept in
/// memory but the case's outcome reports the failure, not a partial result.
pub struct CaseExecution {
    case: BenchmarkCase,
    iterations: usize,
    completed: Vec<IterationResult>,
    failure: Option<CaseFailure>,
}

impl CaseExecution {
    /// The case being executed.
    pub closed spec fn spec_case(&self) -> BenchmarkCase {
        self.case
    }

    /// How many iterations the case was asked for.
    pub closed spec fn spec_iterations(&self) -> usize {
        self.iterations
    }

    /// The results of the iterations completed so far, in order.
    pub closed spec fn spec_completed(&self) -> Seq<IterationResult> {
        self.completed@
    }

    /// Whether an iteration has failed.
    pub closed spec fn spec_failed(&self) -> bool {
        self.failure is Some
    }

    /// The index and message of the failed iteration.
    pub closed spec fn spec_failure(&self) -> CaseFailure
        recommends
            self.spec_failed(),
    {
        self.failure->0
    }

    /// At most the asked-for iterations complete, and a failure strikes the
    /// iteration right after the completed ones.
    pub open spec fn wf(&self) -> bool {
        &&& self.spec_completed().len() <= self.spec_iterations()
        &&& (self.spec_failed() ==> self.spec_failure().iteration == self.spec_completed().len())
        &&& (self.spec_failed() ==> self.spec_completed().len() < self.spec_iterations())
    }

    /// Start executing a case for a fixed number of iterations.
    pub fn new(case: BenchmarkCase, iterations: usize) -> (r: CaseExecution)
        ensures
            r.spec_case() == case,
            r.spec_iterations() == iterations,
            r.spec_completed() == Seq::<IterationResult>::empty(),
            !r.spec_failed(),
            r.wf(),
    {
        CaseExecution { case, iterations, completed: Vec::new(), failure: None }
    }

    /// The index of the next iteration to run: the one after the completed
    /// ones, unless the case has failed or all iterations are done.
    pub fn next_iteration(&self) -> (r: Option<usize>)
        requires
            self.wf(),
        ensures
            r == (if !self.spec_failed() && self.spec_completed().len()
                < self.spec_iterations() {
                Some(self.spec_completed().len() as usize)
            } else {
                None::<usize>
            }),
    {
        if self.failure.is_none() && self.completed.len() < self.iterations {
            Some(self.completed.len())
        } else {
            None
        }
    }

    /// Record that the next iteration completed with the given duration and
    /// row count.
    pub fn record_success(&mut self, elapsed_nanos: u64, row_count: usize)
        requires
            old(self).wf(),
            !old(self).spec_failed(),
            old(self).spec_completed().len() < old(self).spec_iterations(),
        ensures
            final(self).spec_case() == old(self).spec_case(),
            final(self).spec_iterations() == old(self).spec_iterations(),
            final(self).spec_completed() == old(self).spec_completed().push(
                IterationResult { elapsed_nanos, row_count },
            ),
            !final(self).spec_failed(),
            final(self).wf(),
    {
        self.completed.push(IterationResult { elapsed_nanos, row_count });
    }

    /// Record that the next iteration failed with the engine's message; the
    /// case's remaining iterations are abandoned.
    pub fn record_failure(&mut self, message: String)
        requires
            old(self).wf(),
            !old(self).spec_failed(),
            old(self).spec_completed().len() < old(self).spec_iterations(),
        ensures
            final(self).spec_case() == old(self).spec_case(),
            final(self).spec_iterations() == old(self).spec_iterations(),
            final(self).spec_completed() == old(self).spec_completed(),
            final(self).spec_failed(),
            final(self).spec_failure().iteration == old(self).spec_completed().len(),
            final(self).spec_failure().message == message,
            final(self).wf(),
    {
        let iteration = self.completed.len();
        self.failure = Some(CaseFailure { iteration, message });
    }

    /// The outcome of a finished case: every iteration's result, in order,
    /// when all completed; the failure, and no partial results, when one
    /// failed.
    pub fn outcome(self) -> (r: Result<Vec<IterationResult>, CaseFailure>)
        requires
            self.wf(),
            self.spec_failed() || self.spec_completed().len() == self.spec_iterations(),
        ensures
            self.spec_failed() ==> (r matches Err(f) && f.iteration
                == self.spec_failure().iteration && f.message == self.spec_failure().message),
            !self.spec_failed() ==> (r matches Ok(v) && v@ == self.spec_completed() && v@.len()
                == self.spec_iterations()),
    {
        match self.failure {
            Some(f) => Err(f),
            None => Ok(self.completed),
        }
    }
}

} // verus!
