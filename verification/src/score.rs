//! The score of an audit run: a maximum that grows by each checked rule's
//! weight and a lost counter that grows by each violation's penalty.

use vstd::prelude::*;

verus! {

/// The sum of a sequence of integers.
pub open spec fn sum(s: Seq<int>) -> int
    decreases s.len(),
{
    if s.len() == 0 {
        0
    } else {
        sum(s.drop_last()) + s.last()
    }
}

/// Appending one element adds exactly that element to the sum.
pub proof fn lemma_sum_push(s: Seq<int>, x: int)
    ensures
        sum(s.push(x)) == sum(s) + x,
{
    assert(s.push(x).drop_last() =~= s);
    assert(s.push(x).last() == x);
}

/// The running score of one audit run.
///
/// `max` is the highest attainable score: every checked rule adds its
/// weight to it, before the check's outcome is known. `lost` is what
/// violations cost. Both only ever grow, and the weights added so far are
/// kept as a ghost history, so the accounting can be audited itself.
pub struct Score {
    max: u16,
    lost: u16,
    hist: Ghost<Seq<int>>,
}

impl Score {
    /// The accounting invariant: the maximum is the sum of the recorded
    /// weights, and what was lost never exceeds it.
    pub closed spec fn wf(&self) -> bool {
        self.max as int == sum(self.hist@) && self.lost <= self.max
    }

    /// The maximum attainable score so far.
    pub closed spec fn spec_max(&self) -> u16 {
        self.max
    }

    /// The points lost so far.
    pub closed spec fn spec_lost(&self) -> u16 {
        self.lost
    }

    /// The weights of the checks recorded so far, in order.
    pub closed spec fn weights(&self) -> Seq<int> {
        self.hist@
    }

    /// A fresh score: nothing attainable, nothing lost.
    pub fn new() -> (s: Score)
        ensures
            s.wf(),
            s.spec_max() == 0,
            s.spec_lost() == 0,
            s.weights() == Seq::<int>::empty(),
    {
        Score { max: 0, lost: 0, hist: Ghost(Seq::empty()) }
    }

    /// Records that a rule of the given weight is about to be checked.
    pub fn add_max(&mut self, weight: u16)
        requires
            old(self).wf(),
            old(self).spec_max() + weight <= u16::MAX,
        ensures
            final(self).wf(),
            final(self).spec_max() == old(self).spec_max() + weight,
            final(self).spec_lost() == old(self).spec_lost(),
            final(self).weights() == old(self).weights().push(weight as int),
    {
        proof {
            lemma_sum_push(self.hist@, weight as int);
        }
        self.max = self.max + weight;
        self.hist = Ghost(self.hist@.push(weight as int));
    }

    /// Records the penalty of a non-compliant verdict.
    pub fn add_lost(&mut self, penalty: u16)
        requires
            old(self).wf(),
            old(self).spec_lost() + penalty <= old(self).spec_max(),
        ensures
            final(self).wf(),
            final(self).spec_max() == old(self).spec_max(),
            final(self).spec_lost() == old(self).spec_lost() + penalty,
            final(self).weights() == old(self).weights(),
    {
        self.lost = self.lost + penalty;
    }

    /// The maximum attainable score so far.
    pub fn max_points(&self) -> (m: u16)
        ensures
            m == self.spec_max(),
    {
        self.max
    }

    /// The points lost so far.
    pub fn lost_points(&self) -> (l: u16)
        ensures
            l == self.spec_lost(),
    {
        self.lost
    }

    /// The final score: the maximum minus what was lost, never negative.
    pub fn points(&self) -> (p: u16)
        requires
            self.wf(),
        ensures
            p == self.spec_max() - self.spec_lost(),
    {
        self.max - self.lost
    }
}

/// After any sequence of rule checks, the maximum attainable score equals
/// the sum of the checked rules' weights, and the points lost lie between
/// zero and that maximum.
pub proof fn lemma_score_invariant(s: Score)
    requires
        s.wf(),
    ensures
        s.spec_max() as int == sum(s.weights()),
        0 <= s.spec_lost() <= s.spec_max(),
{
}

} // verus!
