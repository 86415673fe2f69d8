//! Aggregation of per-file outcomes.
//!
//! The orchestrator records one outcome per input file, in the order the
//! files finish. After every file finished, the report either confirms the
//! whole run or carries the failed files, in recorded order, for the final
//! error summary and a failing exit. Which files failed — and so the
//! summary's verdict and count — depends only on the multiset of outcomes,
//! never on the completion order.

use crate::errors::FileOutcome;
use crate::errors::is_failure;
use vstd::prelude::*;

verus! {

/// The failures among a run's outcomes, in recorded order.
pub open spec fn failures_of(s: Seq<FileOutcome>) -> Seq<FileOutcome>
    decreases s.len(),
{
    if s.len() == 0 {
        Seq::empty()
    } else {
        (if is_failure(s.first()) {
            seq![s.first()]
        } else {
            Seq::empty()
        }) + failures_of(s.drop_first())
    }
}

/// How many of a run's outcomes are failures.
pub open spec fn spec_failure_count(s: Seq<FileOutcome>) -> nat {
    failures_of(s).len()
}

/// Appending an outcome appends its failure, if it is one.
pub proof fn lemma_failures_of_push(s: Seq<FileOutcome>, o: FileOutcome)
    ensures
        failures_of(s.push(o)) == failures_of(s) + (if is_failure(o) {
            seq![o]
        } else {
            Seq::<FileOutcome>::empty()
        }),
    decreases s.len(),
{
    let tail = if is_failure(o) {
        seq![o]
    } else {
        Seq::<FileOutcome>::empty()
    };
    if s.len() == 0 {
        reveal_with_fuel(failures_of, 2);
        assert(s.push(o).drop_first() =~= Seq::<FileOutcome>::empty());
        assert(s.push(o).first() == o);
        assert(failures_of(s.push(o)) =~= failures_of(s) + tail);
    } else {
        assert(s.push(o).first() == s.first());
        assert(s.push(o).drop_first() =~= s.drop_first().push(o));
        lemma_failures_of_push(s.drop_first(), o);
        let head = if is_failure(s.first()) {
            seq![s.first()]
        } else {
            Seq::<FileOutcome>::empty()
        };
        assert(failures_of(s.push(o)) == head + (failures_of(s.drop_first()) + tail));
        assert(head + (failures_of(s.drop_first()) + tail) =~= (head + failures_of(
            s.drop_first(),
        )) + tail);
    }
}

/// Removing outcome `j` removes exactly its contribution to the count.
proof fn lemma_failure_count_remove(s: Seq<FileOutcome>, j: int)
    requires
        0 <= j < s.len(),
    ensures
        spec_failure_count(s) == spec_failure_count(s.remove(j)) + (if is_failure(s[j]) {
            1nat
        } else {
            0nat
        }),
    decreases j,
{
    if j == 0 {
        assert(s.remove(0) =~= s.drop_first());
    } else {
        assert(s.remove(j).first() == s.first());
        assert(s.remove(j).drop_first() =~= s.drop_first().remove(j - 1));
        assert(s.drop_first()[j - 1] == s[j]);
        lemma_failure_count_remove(s.drop_first(), j - 1);
    }
}

/// Aggregation is order-independent: two runs whose outcomes form the same
/// multiset agree on the number of files, of failures, and of successes —
/// only the order of the reported failures may differ.
pub proof fn lemma_aggregation_order_independent(a: Seq<FileOutcome>, b: Seq<FileOutcome>)
    requires
        a.to_multiset() == b.to_multiset(),
    ensures
        a.len() == b.len(),
        spec_failure_count(a) == spec_failure_count(b),
    decreases a.len(),
{
    broadcast use vstd::seq_lib::group_to_multiset_ensures;

    if a.len() == 0 {
        assert(b.to_multiset().len() == 0);
    } else {
        let x = a.first();
        assert(a.contains(x));
        assert(b.to_multiset().count(x) > 0);
        assert(b.contains(x));
        let j = choose|j: int| 0 <= j < b.len() && b[j] == x;
        assert(a.remove(0).to_multiset() =~= a.to_multiset().remove(x));
        assert(b.remove(j).to_multiset() =~= b.to_multiset().remove(x));
        assert(a.remove(0) =~= a.drop_first());
        lemma_aggregation_order_independent(a.drop_first(), b.remove(j));
        lemma_failure_count_remove(a, 0);
        lemma_failure_count_remove(b, j);
    }
}

/// The aggregate failure of a run in which files failed: how many, and
/// their outcomes in the order the files finished.
#[derive(Clone, Debug)]
pub struct AggregateFailure {
    pub count: usize,
    pub failures: Vec<FileOutcome>,
}

/// The ordered collection of one outcome per input file.
#[derive(Clone, Debug)]
pub struct BatchReport {
    pub outcomes: Vec<FileOutcome>,
}

impl BatchReport {
    /// An empty report, before any file finished.
    pub fn new() -> (r: BatchReport)
        ensures
            r.outcomes@ == Seq::<FileOutcome>::empty(),
    {
        BatchReport { outcomes: Vec::new() }
    }

    /// Records one file's outcome, in completion order. No outcome is ever
    /// dropped or recorded twice: the report grows by exactly this one.
    pub fn record(&mut self, outcome: FileOutcome)
        ensures
            final(self).outcomes@ == old(self).outcomes@.push(outcome),
    {
        self.outcomes.push(outcome);
    }

    /// How many files finished so far.
    pub fn len(&self) -> (n: usize)
        ensures
            n == self.outcomes@.len(),
    {
        self.outcomes.len()
    }

    /// How many recorded outcomes are failures.
    pub fn failure_count(&self) -> (n: usize)
        ensures
            n == spec_failure_count(self.outcomes@),
    {
        let mut count: usize = 0;
        let mut i: usize = 0;
        let n = self.outcomes.len();
        while i < n
            invariant
                i <= n,
                n == self.outcomes@.len(),
                count <= i,
                count == spec_failure_count(self.outcomes@.take(i as int)),
            decreases n - i,
        {
            proof {
                assert(self.outcomes@.take(i + 1) =~= self.outcomes@.take(i as int).push(
                    self.outcomes@[i as int],
                ));
                lemma_failures_of_push(self.outcomes@.take(i as int), self.outcomes@[i as int]);
            }
            if let FileOutcome::Failure { .. } = &self.outcomes[i] {
                count += 1;
            }
            i += 1;
        }
        proof {
            assert(self.outcomes@.take(n as int) =~= self.outcomes@);
        }
        count
    }

    /// Whether every file succeeded.
    pub fn is_success(&self) -> (r: bool)
        ensures
            r == (spec_failure_count(self.outcomes@) == 0),
    {
        self.failure_count() == 0
    }

    /// The run's final result: confirmation when no file failed, else the
    /// failures in recorded order together with their count.
    pub fn summarize(self) -> (r: Result<(), AggregateFailure>)
        ensures
            r is Ok <==> spec_failure_count(self.outcomes@) == 0,
            r matches Err(a) ==> {
                &&& a.failures@ == failures_of(self.outcomes@)
                &&& a.count == a.failures@.len()
                &&& a.count > 0
            },
    {
        let ghost orig = self.outcomes@;
        let mut rest = self.outcomes;
        let mut failures: Vec<FileOutcome> = Vec::new();
        while rest.len() > 0
            invariant
                failures_of(orig) == failures@ + failures_of(rest@),
            decreases rest@.len(),
        {
            let ghost prior = rest@;
            let o = rest.remove(0);
            proof {
                assert(prior.remove(0) =~= prior.drop_first());
            }
            if matches!(o, FileOutcome::Failure { .. }) {
                let ghost had = failures@;
                failures.push(o);
                proof {
                    assert(had + (seq![o] + failures_of(rest@)) =~= (had + seq![o])
                        + failures_of(rest@));
                    assert(failures@ =~= had + seq![o]);
                }
            } else {
                proof {
                    assert(failures@ + (Seq::<FileOutcome>::empty() + failures_of(rest@))
                        =~= failures@ + failures_of(rest@));
                }
            }
        }
        proof {
            assert(failures@ + failures_of(rest@) =~= failures@);
            assert(failures@ == failures_of(orig));
        }
        if failures.len() == 0 {
            Ok(())
        } else {
            let count = failures.len();
            Err(AggregateFailure { count, failures })
        }
    }
}

} // verus!
