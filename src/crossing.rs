//! Debounced zero-crossing counting.
//!
//! Each sample of a frame is classified into a sign with a dead zone around
//! zero. A crossing is counted when a non-zero sign differs from the last
//! non-zero sign seen in the same frame; samples in the dead zone neither
//! count nor reset the reference sign.

use vstd::prelude::*;

verus! {

/// Sign of a sample after the dead zone has been applied.
#[derive(Clone, Copy, Debug, PartialEq, Eq, Structural)]
pub enum Sign {
    Negative,
    Zero,
    Positive,
}

/// The last non-zero sign of `s`, or `Zero` when every sign in `s` is `Zero`.
pub open spec fn last_nonzero(s: Seq<Sign>) -> Sign
    decreases s.len(),
{
    if s.len() == 0 {
        Sign::Zero
    } else if s.last() != Sign::Zero {
        s.last()
    } else {
        last_nonzero(s.drop_last())
    }
}

/// Whether observing `sign` after the signs `prior` counts as a crossing:
/// not the first sample, `sign` is non-zero, a non-zero reference exists,
/// and the two differ.
pub open spec fn is_crossing(prior: Seq<Sign>, sign: Sign) -> bool {
    &&& prior.len() > 0
    &&& sign != Sign::Zero
    &&& last_nonzero(prior) != Sign::Zero
    &&& sign != last_nonzero(prior)
}

/// Number of debounced crossings in the sign sequence `s`.
pub open spec fn crossings(s: Seq<Sign>) -> nat
    decreases s.len(),
{
    if s.len() == 0 {
        0
    } else {
        crossings(s.drop_last()) + if is_crossing(s.drop_last(), s.last()) {
            1nat
        } else {
            0nat
        }
    }
}

/// Streaming counter of debounced zero crossings over one frame.
pub struct ZeroCrossingCounter {
    last: Sign,
    count: usize,
    signs: Ghost<Seq<Sign>>,
}

impl View for ZeroCrossingCounter {
    type V = Seq<Sign>;

    /// The signs observed so far, in order.
    closed spec fn view(&self) -> Seq<Sign> {
        self.signs@
    }
}

impl ZeroCrossingCounter {
    /// The counter's fields agree with the signs observed so far.
    pub closed spec fn wf(&self) -> bool {
        &&& self.last == last_nonzero(self.signs@)
        &&& self.count == crossings(self.signs@)
    }

    /// A counter that has observed nothing.
    pub fn new() -> (r: Self)
        ensures
            r.wf(),
            r@ == Seq::<Sign>::empty(),
    {
        ZeroCrossingCounter { last: Sign::Zero, count: 0, signs: Ghost(Seq::empty()) }
    }

    /// Observes the sign of the next sample of the frame.
    pub fn observe(&mut self, sign: Sign)
        requires
            old(self).wf(),
            old(self)@.len() < usize::MAX,
        ensures
            final(self).wf(),
            final(self)@ == old(self)@.push(sign),
    {
        let ghost prior = self.signs@;
        proof {
            lemma_crossings_bounded(prior);
        }
        let counted = sign != Sign::Zero && self.last != Sign::Zero && sign != self.last;
        if counted {
            self.count = self.count + 1;
        }
        if sign != Sign::Zero {
            self.last = sign;
        }
        self.signs = Ghost(prior.push(sign));
        proof {
            let s = prior.push(sign);
            assert(s.drop_last() == prior);
            assert(s.last() == sign);
            if prior.len() == 0 {
                assert(last_nonzero(prior) == Sign::Zero);
            }
        }
    }

    /// Number of crossings among the signs observed so far.
    pub fn count(&self) -> (r: usize)
        requires
            self.wf(),
        ensures
            r == crossings(self@),
    {
        self.count
    }
}

/// A frame never has more crossings than samples after its first: the
/// crossing count of a non-empty frame is below its length, so the crossing
/// rate lies in `[0, 1]`.
pub proof fn lemma_crossings_bounded(s: Seq<Sign>)
    ensures
        crossings(s) <= s.len(),
        s.len() > 0 ==> crossings(s) < s.len(),
    decreases s.len(),
{
    if s.len() > 0 {
        lemma_crossings_bounded(s.drop_last());
    }
}

/// A frame whose samples all lie in the dead zone has no crossings.
pub proof fn lemma_quiet_frame_no_crossings(s: Seq<Sign>)
    requires
        forall|i: int| 0 <= i < s.len() ==> s[i] == Sign::Zero,
    ensures
        crossings(s) == 0,
    decreases s.len(),
{
    if s.len() > 0 {
        let p = s.drop_last();
        assert forall|i: int| 0 <= i < p.len() implies p[i] == Sign::Zero by {
            assert(p[i] == s[i]);
        }
        lemma_quiet_frame_no_crossings(p);
    }
}

} // verus!
