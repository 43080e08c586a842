use vstd::prelude::*;

verus! {

/// The seed of the noise generator (any non-zero value will do).
pub const PINK_NOISE_SEED: u64 = 0xdeadbeefcafe1337;

/// One step of the xorshift64 generator (shifts 13, 7, 17).
pub open spec fn xorshift64(x: u64) -> u64 {
    let a = x ^ (x << 13u64);
    let b = a ^ (a >> 7u64);
    b ^ (b << 17u64)
}

/// xorshift64 never reaches zero from a non-zero state, so the generator never
/// gets stuck.
pub proof fn lemma_xorshift64_nonzero(x: u64)
    requires
        x != 0,
    ensures
        xorshift64(x) != 0,
{
    let a = x ^ (x << 13u64);
    let b = a ^ (a >> 7u64);
    assert(x != 0 ==> x ^ (x << 13u64) != 0) by (bit_vector);
    assert(a != 0 ==> a ^ (a >> 7u64) != 0) by (bit_vector);
    assert(b != 0 ==> b ^ (b << 17u64) != 0) by (bit_vector);
}

/// Pink noise: a xorshift64 white-noise source followed by a filter whose
/// state `F` the caller keeps (six floating-point filter poles).
pub struct PinkNoise<F> {
    rng: u64,
    pub filter: F,
}

impl<F> PinkNoise<F> {
    /// The generator's state.
    pub closed spec fn state(self) -> u64 {
        self.rng
    }

    /// The filter state.
    pub closed spec fn filter_state(self) -> F {
        self.filter
    }

    #[verifier::type_invariant]
    closed spec fn seeded(self) -> bool {
        self.rng != 0
    }

    /// A generator at the seed, with the given (cleared) filter state.
    pub fn new(filter: F) -> (n: Self)
        ensures
            n.state() == PINK_NOISE_SEED,
            n.filter_state() == filter,
    {
        Self { rng: PINK_NOISE_SEED, filter }
    }

    /// Clears the filter state; the generator keeps its state, since resetting
    /// it would replay the same noise after every reset.
    pub fn reset(&mut self, cleared: F)
        ensures
            final(self).state() == old(self).state(),
            final(self).filter_state() == cleared,
    {
        proof {
            use_type_invariant(&*self);
        }
        self.filter = cleared;
    }

    /// Advances the generator and returns its new state: uniformly spread
    /// non-zero 64-bit white noise, which the caller maps to `[-1, 1]`.
    pub fn white(&mut self) -> (w: u64)
        ensures
            w == xorshift64(old(self).state()),
            final(self).state() == w,
            w != 0,
            final(self).filter_state() == old(self).filter_state(),
    {
        proof {
            use_type_invariant(&*self);
            lemma_xorshift64_nonzero(self.rng);
        }
        let x = self.rng;
        let a = x ^ (x << 13u64);
        let b = a ^ (a >> 7u64);
        let c = b ^ (b << 17u64);
        self.rng = c;
        c
    }
}

} // verus!
