//! Randomness sources for the die: the `DieRng` capability trait, the
//! default generator backed by the `rand` crate, and a stub source that
//! always returns the lower bound of the requested range.

use vstd::prelude::*;
use rand::Rng;

verus! {

/// A capability that produces an integer draw over a half-open range.
///
/// A die always calls its source with `l < h`; an implementation is not
/// required to check that, so the bound stands here as a precondition.
/// The spec function `draws` says, per implementation, which results a
/// call may produce, so that a die's contract can carry the behaviour of
/// whatever source it was configured with.
pub trait DieRng {
    /// Which results a draw over `[l, h)` may produce. By default nothing
    /// is promised; a deterministic source overrides this to pin its
    /// result down.
    open spec fn draws(&self, l: u8, h: u8, r: u8) -> bool {
        true
    }

    /// Return an integer in `[l, h)`.
    fn random_int(&self, l: u8, h: u8) -> (r: u8)
        requires
            l < h,
        ensures
            l <= r < h,
            self.draws(l, h, r),
    ;
}

/// Relies on rand: `thread_rng` hands out the thread-local generator and
/// `Rng::gen_range(l..h)` returns a uniformly distributed value in
/// `[l, h)`; it panics only on an empty range, which `l < h` rules out.
#[verifier::external_body]
fn rand_range(l: u8, h: u8) -> (r: u8)
    requires
        l < h,
    ensures
        l <= r < h,
{
    rand::thread_rng().gen_range(l..h)
}

/// The default source: a fresh uniform draw from the process-wide
/// generator on every call.
pub struct DieStdRng {}

impl DieRng for DieStdRng {
    fn random_int(&self, l: u8, h: u8) -> u8 {
        rand_range(l, h)
    }
}

/// A stub source that always returns the lower bound of the range; a die
/// configured with it rolls fully determined values.
pub struct LowRng {}

impl DieRng for LowRng {
    open spec fn draws(&self, l: u8, h: u8, r: u8) -> bool {
        r == l
    }

    fn random_int(&self, l: u8, _h: u8) -> u8 {
        l
    }
}

} // verus!
