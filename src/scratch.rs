//! Grow-only per-sample band store.
//!
//! Analysis writes, for each sample of a frame, the high-passed value, the
//! speech-band value and the rumble-band value. Rendering later reads them
//! back. The three sequences always have one length, which only grows, to
//! the largest frame size seen; rendering a frame longer than that length is
//! refused by `covers`.

use vstd::prelude::*;

verus! {

/// The larger of two lengths.
pub open spec fn max_len(a: nat, b: nat) -> nat {
    if a >= b {
        a
    } else {
        b
    }
}

/// Length of a store that started empty and was then grown to each size of
/// `sizes` in turn.
pub open spec fn grown_len(sizes: Seq<nat>) -> nat
    decreases sizes.len(),
{
    if sizes.len() == 0 {
        0
    } else {
        max_len(grown_len(sizes.drop_last()), sizes.last())
    }
}

/// Per-sample band values of the most recently analyzed frame, generic over
/// the sample type.
pub struct BandScratch<T> {
    hp: Vec<T>,
    speech: Vec<T>,
    rumble: Vec<T>,
}

impl<T> View for BandScratch<T> {
    type V = Seq<(T, T, T)>;

    /// The stored `(high-pass, speech, rumble)` triples, by sample index.
    closed spec fn view(&self) -> Seq<(T, T, T)> {
        Seq::new(self.hp@.len(), |i: int| (self.hp@[i], self.speech@[i], self.rumble@[i]))
    }
}

impl<T: Copy> BandScratch<T> {
    /// The three band sequences have one length.
    pub closed spec fn wf(&self) -> bool {
        &&& self.speech@.len() == self.hp@.len()
        &&& self.rumble@.len() == self.hp@.len()
    }

    /// An empty store.
    pub fn new() -> (r: Self)
        ensures
            r.wf(),
            r@.len() == 0,
    {
        BandScratch { hp: Vec::new(), speech: Vec::new(), rumble: Vec::new() }
    }

    /// Number of samples held.
    pub fn len(&self) -> (r: usize)
        requires
            self.wf(),
        ensures
            r == self@.len(),
    {
        self.hp.len()
    }

    /// Grows the store to at least `frame_size` samples, never shrinking it.
    /// Existing entries are kept; new entries hold `fill` in every band.
    pub fn ensure_size(&mut self, frame_size: usize, fill: T)
        requires
            old(self).wf(),
        ensures
            final(self).wf(),
            final(self)@.len() == max_len(old(self)@.len(), frame_size as nat),
            forall|i: int| 0 <= i < old(self)@.len() ==> final(self)@[i] == old(self)@[i],
            forall|i: int|
                old(self)@.len() <= i < final(self)@.len() ==> final(self)@[i] == (fill, fill, fill),
    {
        let ghost before = self@;
        while self.hp.len() < frame_size
            invariant
                self.wf(),
                before.len() <= self@.len() <= max_len(before.len(), frame_size as nat),
                forall|i: int|
                    0 <= i < before.len() ==> (self.hp@[i], self.speech@[i], self.rumble@[i])
                        == before[i],
                forall|i: int|
                    before.len() <= i < self.hp@.len() ==> self.hp@[i] == fill && self.speech@[i]
                        == fill && self.rumble@[i] == fill,
            decreases frame_size - self.hp.len(),
        {
            self.hp.push(fill);
            self.speech.push(fill);
            self.rumble.push(fill);
        }
    }

    /// Whether the store holds bands for every index of a frame of
    /// `frame_size` samples.
    pub fn covers(&self, frame_size: usize) -> (r: bool)
        requires
            self.wf(),
        ensures
            r == (frame_size <= self@.len()),
    {
        frame_size <= self.hp.len()
    }

    /// Records the band values of sample `index`.
    pub fn store(&mut self, index: usize, hp: T, speech: T, rumble: T)
        requires
            old(self).wf(),
            index < old(self)@.len(),
        ensures
            final(self).wf(),
            final(self)@ == old(self)@.update(index as int, (hp, speech, rumble)),
    {
        self.hp.set(index, hp);
        self.speech.set(index, speech);
        self.rumble.set(index, rumble);
        assert(self@ =~= old(self)@.update(index as int, (hp, speech, rumble)));
    }

    /// The `(high-pass, speech, rumble)` values of sample `index`.
    pub fn bands_at(&self, index: usize) -> (r: (T, T, T))
        requires
            self.wf(),
            index < self@.len(),
        ensures
            r == self@[index as int],
    {
        (self.hp[index], self.speech[index], self.rumble[index])
    }
}

/// Growing a store twice to one size leaves it as growing it once.
pub proof fn lemma_grow_idempotent(len: nat, frame_size: nat)
    ensures
        max_len(max_len(len, frame_size), frame_size) == max_len(len, frame_size),
{
}

/// A store grown in turn to each frame size of `sizes`, from empty, does not
/// cover a non-empty frame longer than every one of them: rendering such a
/// frame falls back to silence.
pub proof fn lemma_longer_frame_not_covered(sizes: Seq<nat>, frame_size: nat)
    requires
        frame_size > 0,
        forall|i: int| 0 <= i < sizes.len() ==> sizes[i] < frame_size,
    ensures
        grown_len(sizes) < frame_size,
    decreases sizes.len(),
{
    if sizes.len() > 0 {
        let p = sizes.drop_last();
        assert forall|i: int| 0 <= i < p.len() implies p[i] < frame_size by {
            assert(p[i] == sizes[i]);
        }
        lemma_longer_frame_not_covered(p, frame_size);
        assert(sizes.last() == sizes[sizes.len() - 1]);
    }
}

} // verus!
