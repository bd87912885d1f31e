//! The Run Reporter: an append-only record of every case's iteration
//! results, finalized into per-case summaries with the arithmetic mean
//! elapsed duration.

use vstd::prelude::*;
use vstd::arithmetic::div_mod::{lemma_div_is_ordered, lemma_div_multiples_vanish};
use vstd::arithmetic::mul::lemma_mul_inequality;
use crate::runner::IterationResult;

verus! {

/// One named sub-case of the run: a label and the ordered results of its
/// iterations.
struct CaseReport {
    label: String,
    results: Vec<IterationResult>,
}

/// The finalized record of one case: its label, how many iterations it
/// holds, their results in order, and the arithmetic mean elapsed duration
/// (absent when the case holds no iterations).
pub struct CaseSummary {
    pub label: String,
    pub iteration_count: usize,
    pub results: Vec<IterationResult>,
    pub mean_elapsed_nanos: Option<u64>,
}

/// The sum of the elapsed durations of a sequence of iteration results.
pub open spec fn spec_sum_elapsed(s: Seq<IterationResult>) -> int
    decreases s.len(),
{
    if s.len() == 0 {
        0
    } else {
        spec_sum_elapsed(s.drop_last()) + s.last().elapsed_nanos
    }
}

/// The arithmetic mean elapsed duration of a non-empty sequence of
/// iteration results.
pub open spec fn spec_mean_elapsed(s: Seq<IterationResult>) -> int
    recommends
        s.len() > 0,
{
    spec_sum_elapsed(s) / s.len() as int
}

/// The summed duration lies between 0 and the count times the largest
/// representable duration.
pub proof fn lemma_sum_elapsed_bounds(s: Seq<IterationResult>)
    ensures
        0 <= spec_sum_elapsed(s) <= s.len() * u64::MAX,
    decreases s.len(),
{
    if s.len() == 0 {
    } else {
        lemma_sum_elapsed_bounds(s.drop_last());
        assert(s.len() * u64::MAX == (s.len() - 1) * u64::MAX + u64::MAX) by (nonlinear_arith);
    }
}

/// The mean of a non-empty sequence of results is representable as a
/// duration itself.
pub proof fn lemma_mean_elapsed_fits(s: Seq<IterationResult>)
    requires
        s.len() > 0,
    ensures
        0 <= spec_mean_elapsed(s) <= u64::MAX,
{
    let n = s.len() as int;
    lemma_sum_elapsed_bounds(s);
    lemma_div_multiples_vanish(0, n);
    lemma_div_is_ordered(0, spec_sum_elapsed(s), n);
    lemma_div_is_ordered(spec_sum_elapsed(s), n * u64::MAX, n);
    lemma_div_multiples_vanish(u64::MAX as int, n);
}

fn sum_elapsed(results: &Vec<IterationResult>) -> (r: u128)
    ensures
        r == spec_sum_elapsed(results@),
{
    let mut total: u128 = 0;
    let mut i: usize = 0;
    while i < results.len()
        invariant
            i <= results@.len(),
            total == spec_sum_elapsed(results@.take(i as int)),
            total <= (i as int) * (u64::MAX as int),
        decreases results@.len() - i,
    {
        proof {
            assert(results@.take(i + 1 as int).drop_last() =~= results@.take(i as int));
            lemma_mul_inequality(i as int + 1, 0x1_0000_0000_0000_0000, u64::MAX as int);
            assert((i as int + 1) * u64::MAX == (i as int) * u64::MAX + u64::MAX)
                by (nonlinear_arith);
        }
        total = total + results[i].elapsed_nanos as u128;
        i = i + 1;
    }
    proof {
        assert(results@.take(results@.len() as int) =~= results@);
    }
    total
}

/// The arithmetic mean elapsed duration of a case's results, absent when
/// it has none.
pub fn mean_elapsed(results: &Vec<IterationResult>) -> (r: Option<u64>)
    ensures
        r is Some <==> results@.len() > 0,
        r matches Some(m) ==> m == spec_mean_elapsed(results@),
{
    if results.len() == 0 {
        None
    } else {
        let total = sum_elapsed(results);
        proof {
            lemma_mean_elapsed_fits(results@);
        }
        let m = total / (results.len() as u128);
        Some(m as u64)
    }
}

fn copy_results(results: &Vec<IterationResult>) -> (r: Vec<IterationResult>)
    ensures
        r@ == results@,
{
    let mut v: Vec<IterationResult> = Vec::new();
    let mut i: usize = 0;
    while i < results.len()
        invariant
            i <= results@.len(),
            v@ =~= results@.take(i as int),
        decreases results@.len() - i,
    {
        v.push(results[i]);
        proof {
            assert(v@ =~= results@.take(i + 1 as int));
        }
        i = i + 1;
    }
    proof {
        assert(v@ =~= results@);
    }
    v
}

/// The run record: an ordered, append-only sequence of named sub-cases,
/// each holding the ordered results of its iterations.
pub struct BenchmarkRun {
    cases: Vec<CaseReport>,
}

impl BenchmarkRun {
    /// The recorded sub-cases: each a label and its results, in the order
    /// they were recorded.
    pub closed spec fn spec_cases(&self) -> Seq<(Seq<char>, Seq<IterationResult>)> {
        self.cases@.map_values(|c: CaseReport| (c.label@, c.results@))
    }

    /// An empty run record.
    pub fn new() -> (r: BenchmarkRun)
        ensures
            r.spec_cases() == Seq::<(Seq<char>, Seq<IterationResult>)>::empty(),
    {
        let r = BenchmarkRun { cases: Vec::new() };
        proof {
            assert(r.spec_cases() =~= Seq::<(Seq<char>, Seq<IterationResult>)>::empty());
        }
        r
    }

    /// Open a new, empty sub-case under the given label.
    pub fn start_new_case(&mut self, label: String)
        ensures
            final(self).spec_cases() == old(self).spec_cases().push(
                (label@, Seq::<IterationResult>::empty()),
            ),
    {
        self.cases.push(CaseReport { label, results: Vec::new() });
        proof {
            assert(self.spec_cases() =~= old(self).spec_cases().push(
                (label@, Seq::<IterationResult>::empty()),
            ));
        }
    }

    /// Append one iteration's result to the most recently opened sub-case.
    pub fn write_iter(&mut self, elapsed_nanos: u64, row_count: usize)
        requires
            old(self).spec_cases().len() > 0,
        ensures
            final(self).spec_cases() == old(self).spec_cases().update(
                old(self).spec_cases().len() - 1,
                (
                    old(self).spec_cases().last().0,
                    old(self).spec_cases().last().1.push(IterationResult { elapsed_nanos, row_count }),
                ),
            ),
    {
        let popped = self.cases.pop();
        match popped {
            Some(mut last) => {
                last.results.push(IterationResult { elapsed_nanos, row_count });
                self.cases.push(last);
                proof {
                    assert(self.spec_cases() =~= old(self).spec_cases().update(
                        old(self).spec_cases().len() - 1,
                        (
                            old(self).spec_cases().last().0,
                            old(self).spec_cases().last().1.push(
                                IterationResult { elapsed_nanos, row_count },
                            ),
                        ),
                    ));
                }
            },
            None => {
                proof {
                    assert(false);
                }
            },
        }
    }

    /// Record a completed case in one step: a new sub-case under the given
    /// label holding exactly the given results.
    pub fn record_case(&mut self, label: String, results: Vec<IterationResult>)
        ensures
            final(self).spec_cases() == old(self).spec_cases().push((label@, results@)),
    {
        self.cases.push(CaseReport { label, results });
        proof {
            assert(self.spec_cases() =~= old(self).spec_cases().push((label@, results@)));
        }
    }

    /// Finalize the run: one summary per recorded sub-case, in order, each
    /// carrying the case's label, its results unchanged, and their mean
    /// elapsed duration.
    pub fn finalize(&self) -> (r: Vec<CaseSummary>)
        ensures
            r@.len() == self.spec_cases().len(),
            forall|i: int|
                0 <= i < r@.len() ==> {
                    &&& (#[trigger] r@[i]).label@ == self.spec_cases()[i].0
                    &&& r@[i].results@ == self.spec_cases()[i].1
                    &&& r@[i].iteration_count == self.spec_cases()[i].1.len()
                    &&& (r@[i].mean_elapsed_nanos is Some <==> self.spec_cases()[i].1.len() > 0)
                    &&& (r@[i].mean_elapsed_nanos matches Some(m) ==> m == spec_mean_elapsed(
                        self.spec_cases()[i].1,
                    ))
                },
    {
        let mut out: Vec<CaseSummary> = Vec::new();
        let mut i: usize = 0;
        while i < self.cases.len()
            invariant
                i <= self.cases@.len(),
                out@.len() == i,
                forall|j: int|
                    0 <= j < i ==> {
                        &&& (#[trigger] out@[j]).label@ == self.spec_cases()[j].0
                        &&& out@[j].results@ == self.spec_cases()[j].1
                        &&& out@[j].iteration_count == self.spec_cases()[j].1.len()
                        &&& (out@[j].mean_elapsed_nanos is Some <==> self.spec_cases()[j].1.len()
                            > 0)
                        &&& (out@[j].mean_elapsed_nanos matches Some(m) ==> m == spec_mean_elapsed(
                            self.spec_cases()[j].1,
                        ))
                    },
            decreases self.cases@.len() - i,
        {
            let case = &self.cases[i];
            let label = case.label.clone();
            let results = copy_results(&case.results);
            let mean = mean_elapsed(&results);
            let iteration_count = results.len();
            out.push(CaseSummary { label, iteration_count, results, mean_elapsed_nanos: mean });
            i = i + 1;
        }
        out
    }
}

} // verus!
