//! The die itself and the builder that configures it.

use vstd::prelude::*;
use crate::source::DieRng;
use crate::source::DieStdRng;
use crate::source::LowRng;

verus! {

/// A die with a fixed number of faces and an owned randomness source.
/// Rolling draws a value in `[1, sides)` from the source and appends it
/// to the history. Created only through [`DieBuilder::build`].
pub struct Die<R: DieRng> {
    sides: u8,
    rng: R,
    history: Vec<u8>,
}

/// How one roll changes a die: the produced value is appended to the
/// history and the configuration stays untouched.
pub open spec fn roll_step<R: DieRng>(pre: Die<R>, post: Die<R>, r: u8) -> bool {
    &&& post.spec_sides() == pre.spec_sides()
    &&& post.spec_rng() == pre.spec_rng()
    &&& post.spec_history() == pre.spec_history().push(r)
}

impl<R: DieRng> Die<R> {
    /// The configured number of faces.
    pub closed spec fn spec_sides(self) -> u8 {
        self.sides
    }

    /// The configured randomness source.
    pub closed spec fn spec_rng(self) -> R {
        self.rng
    }

    /// The values produced so far, in roll order.
    pub closed spec fn spec_history(self) -> Seq<u8> {
        self.history@
    }

    /// Every constructed die has at least two faces.
    pub open spec fn wf(self) -> bool {
        self.spec_sides() >= 2
    }

    /// Roll the die: draw a value in `[1, sides)` from the configured
    /// source and record it in the history.
    pub fn roll(&mut self) -> (r: u8)
        requires
            old(self).wf(),
        ensures
            final(self).wf(),
            1 <= r < old(self).spec_sides(),
            old(self).spec_rng().draws(1, old(self).spec_sides(), r),
            roll_step(*old(self), *final(self), r),
    {
        let ret = self.rng.random_int(1, self.sides);
        self.history.push(ret);
        ret
    }

    /// A copy of the history: every value produced so far, in roll order.
    pub fn get_history(&self) -> (h: Vec<u8>)
        ensures
            h@ == self.spec_history(),
    {
        self.history.clone()
    }
}

impl Die<DieStdRng> {
    /// A builder with the defaults: six sides and the default source.
    pub fn builder() -> (b: DieBuilder<DieStdRng>)
        ensures
            b.wf(),
            b.spec_sides() == 6,
            b.spec_rng() == (DieStdRng {}),
    {
        DieBuilder::new()
    }
}

/// Accumulates a die's configuration; consumed by [`DieBuilder::build`].
pub struct DieBuilder<R: DieRng> {
    sides: u8,
    rng: R,
}

impl DieBuilder<DieStdRng> {
    /// A builder with the defaults: six sides and the default source.
    pub fn new() -> (b: DieBuilder<DieStdRng>)
        ensures
            b.wf(),
            b.spec_sides() == 6,
            b.spec_rng() == (DieStdRng {}),
    {
        DieBuilder { sides: 6, rng: DieStdRng {} }
    }
}

impl<R: DieRng> DieBuilder<R> {
    /// The side count the builder currently holds.
    pub closed spec fn spec_sides(self) -> u8 {
        self.sides
    }

    /// The randomness source the builder currently holds.
    pub closed spec fn spec_rng(self) -> R {
        self.rng
    }

    /// A builder never holds a side count below two.
    pub open spec fn wf(self) -> bool {
        self.spec_sides() >= 2
    }

    /// Set the number of faces. A count below two is ignored and the
    /// previous setting kept.
    pub fn sides(self, sides: u8) -> (b: DieBuilder<R>)
        ensures
            b.spec_sides() == (if sides > 1 { sides } else { self.spec_sides() }),
            b.spec_rng() == self.spec_rng(),
            self.wf() ==> b.wf(),
    {
        if sides > 1 {
            DieBuilder { sides, rng: self.rng }
        } else {
            self
        }
    }

    /// Replace the randomness source.
    pub fn rng<R2: DieRng>(self, rng: R2) -> (b: DieBuilder<R2>)
        ensures
            b.spec_sides() == self.spec_sides(),
            b.spec_rng() == rng,
            self.wf() ==> b.wf(),
    {
        DieBuilder { sides: self.sides, rng }
    }

    /// Build the die: the builder's configuration and an empty history.
    pub fn build(self) -> (d: Die<R>)
        requires
            self.wf(),
        ensures
            d.wf(),
            d.spec_sides() == self.spec_sides(),
            d.spec_rng() == self.spec_rng(),
            d.spec_history() == Seq::<u8>::empty(),
    {
        Die { sides: self.sides, rng: self.rng, history: Vec::new() }
    }
}

/// With a source that always returns the lower bound, every roll of a
/// well-formed die yields 1, whatever the configured side count.
pub proof fn lemma_low_source_rolls_one(d: Die<LowRng>, r: u8)
    requires
        d.wf(),
        d.spec_rng().draws(1, d.spec_sides(), r),
    ensures
        r == 1,
{
}

/// The history records the rolls: starting from an empty history, after
/// any run of rolls the history holds exactly the produced values, in
/// roll order.
pub proof fn lemma_history_records_rolls<R: DieRng>(states: Seq<Die<R>>, results: Seq<u8>)
    requires
        states.len() == results.len() + 1,
        states[0].spec_history() == Seq::<u8>::empty(),
        forall|i: int| 0 <= i < results.len() ==>
            #[trigger] roll_step(states[i], states[i + 1], results[i]),
    ensures
        states.last().spec_history() == results,
    decreases results.len(),
{
    if results.len() == 0 {
        assert(states.last().spec_history() =~= results);
    } else {
        let n = results.len() as int;
        assert forall|i: int| 0 <= i < n - 1 implies #[trigger] roll_step(
            states.drop_last()[i],
            states.drop_last()[i + 1],
            results.drop_last()[i],
        ) by {
            assert(roll_step(states[i], states[i + 1], results[i]));
        }
        lemma_history_records_rolls(states.drop_last(), results.drop_last());
        assert(roll_step(states[n - 1], states[n], results[n - 1]));
        assert(states.last().spec_history() =~= results);
    }
}

/// Inspecting the history never changes it: two reads of the same die
/// with no roll between them return the same sequence.
pub proof fn lemma_history_reads_agree<R: DieRng>(d: Die<R>, h1: Seq<u8>, h2: Seq<u8>)
    requires
        h1 == d.spec_history(),
        h2 == d.spec_history(),
    ensures
        h1 == h2,
{
}

} // verus!
