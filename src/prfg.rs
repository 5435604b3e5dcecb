use vstd::prelude::*;

verus! {

/// A 32-bit xorshift generator: each step yields 16 pseudorandom bits, which
/// read as the fraction `bits / 65536` lie in [0, 1).
pub struct PseudorandomFloatGenerator {
    state: u32,
}

/// One xorshift step on a 32-bit state.
pub open spec fn xorshift(x: u32) -> u32 {
    let a = x ^ (x << 13u32);
    let b = a ^ (a >> 17u32);
    b ^ (b << 5u32)
}

/// The high 16 bits of a state: the fraction that the state stands for, times 65536.
pub open spec fn high_bits(x: u32) -> nat {
    (x >> 16u32) as nat
}

/// The index that the fraction `bits / 65536` selects among `n` candidates:
/// `floor(bits / 65536 * n)`.
pub open spec fn scaled_index(bits: nat, n: nat) -> nat {
    (bits * n) / 65536
}

impl PseudorandomFloatGenerator {
    /// The current state.
    pub closed spec fn state(&self) -> u32 {
        self.state
    }

    pub fn new(seed: u32) -> (r: PseudorandomFloatGenerator)
        ensures
            r.state() == seed,
    {
        PseudorandomFloatGenerator { state: seed }
    }

    /// Advances the state by one xorshift step and returns its high 16 bits.
    pub fn next_bits(&mut self) -> (r: u16)
        ensures
            final(self).state() == xorshift(old(self).state()),
            r as nat == high_bits(xorshift(old(self).state())),
    {
        let mut x = self.state;
        x = x ^ (x << 13u32);
        x = x ^ (x >> 17u32);
        x = x ^ (x << 5u32);
        self.state = x;
        assert((x >> 16u32) <= 0xffff) by (bit_vector);
        (x >> 16u32) as u16
    }
}

/// Scales 16 bits to an index below `inclusive_max + 1`, exactly as
/// `floor(bits / 65536 * (inclusive_max + 1))`.
pub fn scale_to_index(bits: u16, inclusive_max: usize) -> (r: usize)
    ensures
        r as nat == scaled_index(bits as nat, inclusive_max as nat + 1),
        r <= inclusive_max,
{
    let n: u128 = inclusive_max as u128 + 1;
    let b: u128 = bits as u128;
    assert(b * n <= 65535 * n) by (nonlinear_arith)
        requires
            b <= 65535,
    ;
    let r: u128 = (b * n) / 65536;
    assert(r < n) by (nonlinear_arith)
        requires
            r == (b * n) / 65536,
            b <= 65535,
            n > 0,
    ;
    r as usize
}

} // verus!
