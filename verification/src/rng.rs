use vstd::prelude::*;

verus! {

/// Modulus of the linear congruential recurrence; the state stays below it.
pub const RNG_MODULUS: u64 = 0x8000_0000;

/// Inclusive-range uniform integer source: a linear congruential generator
/// seeded by the host.  Every draw is a deterministic function of the seed,
/// so level generation is deterministic modulo the seed handed in.
#[derive(Clone, Copy, Debug)]
pub struct Rng {
    state: u64,
}

impl Rng {
    /// The state is a residue of the recurrence's modulus.
    pub closed spec fn wf(self) -> bool {
        self.state < RNG_MODULUS
    }

    pub closed spec fn state(self) -> u64 {
        self.state
    }

    /// One step of the linear congruential recurrence.
    pub open spec fn spec_next(s: u64) -> u64 {
        ((s * 1103515245 + 12345) % (RNG_MODULUS as int)) as u64
    }

    pub fn new(seed: u64) -> (r: Rng)
        ensures
            r.wf(),
            r.state() == seed % RNG_MODULUS,
    {
        Rng { state: seed % RNG_MODULUS }
    }

    fn next(&mut self) -> (r: u64)
        requires
            old(self).wf(),
        ensures
            final(self).wf(),
            final(self).state() == Self::spec_next(old(self).state()),
            r == final(self).state(),
    {
        self.state = (self.state * 1103515245 + 12345) % RNG_MODULUS;
        self.state
    }

    /// Uniform draw in the inclusive range `[lo, hi]`.
    pub fn randint(&mut self, lo: i32, hi: i32) -> (r: i32)
        requires
            old(self).wf(),
            lo <= hi,
        ensures
            final(self).wf(),
            final(self).state() == Self::spec_next(old(self).state()),
            lo <= r <= hi,
            r == lo + Self::spec_next(old(self).state()) as int % (hi - lo + 1),
    {
        let x = self.next();
        let span: u64 = ((hi as i64) - (lo as i64) + 1) as u64;
        let off: u64 = x % span;
        ((lo as i64) + (off as i64)) as i32
    }
}

} // verus!
