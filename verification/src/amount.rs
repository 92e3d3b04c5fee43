//! Unsigned 256-bit quantities of currency.

use vstd::prelude::*;
use vstd::arithmetic::div_mod::{
    lemma_div_denominator,
    lemma_fundamental_div_mod,
    lemma_fundamental_div_mod_converse,
};

verus! {

/// 2^64, the weight of the second limb.
pub open spec fn limb_base() -> nat {
    0x1_0000_0000_0000_0000
}

/// 2^128, the weight of the third limb.
pub open spec fn limb_base_2() -> nat {
    0x1_0000_0000_0000_0000_0000_0000_0000_0000nat
}

/// 2^192, the weight of the fourth limb.
pub open spec fn limb_base_3() -> nat {
    0x1_0000_0000_0000_0000_0000_0000_0000_0000_0000_0000_0000_0000nat
}

/// 2^256, the first value that no amount reaches.
pub open spec fn amount_limit() -> nat {
    0x1_0000_0000_0000_0000_0000_0000_0000_0000_0000_0000_0000_0000_0000_0000_0000_0000nat
}

/// An amount below 2^256, held as four 64-bit limbs, least significant first.
#[derive(Clone, Copy, Debug, PartialEq, Eq, Structural)]
pub struct Amount {
    pub w0: u64,
    pub w1: u64,
    pub w2: u64,
    pub w3: u64,
}

impl Amount {
    /// The number that the limbs stand for.
    pub open spec fn value(self) -> nat {
        (self.w0 + self.w1 * limb_base() + self.w2 * limb_base_2() + self.w3
            * limb_base_3()) as nat
    }

    /// The amount that stands for `n`, for `n` below 2^256.
    pub open spec fn of(n: nat) -> Amount {
        Amount {
            w0: (n % limb_base()) as u64,
            w1: (n / limb_base() % limb_base()) as u64,
            w2: (n / limb_base_2() % limb_base()) as u64,
            w3: (n / limb_base_3() % limb_base()) as u64,
        }
    }

    /// Every amount is the one that stands for its value.
    pub proof fn lemma_canonical(self)
        ensures
            Amount::of(self.value()) == self,
            self.value() < amount_limit(),
    {
        let n = self.value() as int;
        let b1 = limb_base() as int;
        let b2 = limb_base_2() as int;
        let b3 = limb_base_3() as int;
        let (a0, a1, a2, a3) = (self.w0 as int, self.w1 as int, self.w2 as int, self.w3 as int);
        lemma_fundamental_div_mod_converse(n, b1, a1 + a2 * b1 + a3 * b2, a0);
        lemma_fundamental_div_mod_converse(a1 + a2 * b1 + a3 * b2, b1, a2 + a3 * b1, a1);
        lemma_fundamental_div_mod_converse(n, b2, a2 + a3 * b1, a0 + a1 * b1);
        lemma_fundamental_div_mod_converse(a2 + a3 * b1, b1, a3, a2);
        lemma_fundamental_div_mod_converse(n, b3, a3, a0 + a1 * b1 + a2 * b2);
        lemma_fundamental_div_mod_converse(a3, b1, 0, a3);
    }

    /// The amount with the value of `n`.
    pub fn from_u64(n: u64) -> (r: Amount)
        ensures
            r.value() == n,
    {
        Amount { w0: n, w1: 0, w2: 0, w3: 0 }
    }

    /// Multiplies by a 64-bit factor. The product is the returned amount plus
    /// the returned carry times 2^256.
    pub fn mul_u64(&self, factor: u64) -> (r: (Amount, u64))
        ensures
            r.0.value() + r.1 * amount_limit() == self.value() * factor,
    {
        let (w0, c0) = mul_limb(self.w0, factor, 0);
        let (w1, c1) = mul_limb(self.w1, factor, c0);
        let (w2, c2) = mul_limb(self.w2, factor, c1);
        let (w3, c3) = mul_limb(self.w3, factor, c2);
        let low = Amount { w0, w1, w2, w3 };
        proof {
            let f = factor as int;
            let (a0, a1, a2, a3) = (self.w0 as int, self.w1 as int, self.w2 as int, self.w3 as int);
            let b1 = limb_base() as int;
            let b2 = limb_base_2() as int;
            let b3 = limb_base_3() as int;
            lemma_scaled_term(a1, b1, f);
            lemma_scaled_term(a2, b2, f);
            lemma_scaled_term(a3, b3, f);
            lemma_sum_times(a0, a1 * b1, f);
            lemma_sum_times(a0 + a1 * b1, a2 * b2, f);
            lemma_sum_times(a0 + a1 * b1 + a2 * b2, a3 * b3, f);
        }
        (low, c3)
    }
}

/// The amount that stands for a number below 2^256 has that number as its value.
pub proof fn lemma_of_value(n: nat)
    requires
        n < amount_limit(),
    ensures
        Amount::of(n).value() == n,
{
    let b1 = limb_base() as int;
    let q1 = n as int / b1;
    let q2 = q1 / b1;
    let q3 = q2 / b1;
    lemma_fundamental_div_mod(n as int, b1);
    lemma_fundamental_div_mod(q1, b1);
    lemma_fundamental_div_mod(q2, b1);
    lemma_fundamental_div_mod(q3, b1);
    lemma_div_denominator(n as int, b1, b1);
    lemma_div_denominator(n as int, b1 * b1, b1);
}

proof fn lemma_scaled_term(limb: int, weight: int, factor: int)
    ensures
        (limb * weight) * factor == (limb * factor) * weight,
{
    assert((limb * weight) * factor == (limb * factor) * weight) by (nonlinear_arith);
}

proof fn lemma_sum_times(x: int, y: int, factor: int)
    ensures
        (x + y) * factor == x * factor + y * factor,
{
    assert((x + y) * factor == x * factor + y * factor) by (nonlinear_arith);
}

/// One step of a long multiplication: `limb * factor + carry_in`, split into
/// its low 64 bits and what is carried into the next limb.
fn mul_limb(limb: u64, factor: u64, carry_in: u64) -> (r: (u64, u64))
    ensures
        r.0 + r.1 * limb_base() == limb * factor + carry_in,
{
    assert(limb * factor <= 0xffff_ffff_ffff_ffff * 0xffff_ffff_ffff_ffff) by (nonlinear_arith)
        requires
            limb <= 0xffff_ffff_ffff_ffff,
            factor <= 0xffff_ffff_ffff_ffff,
    ;
    let wide: u128 = (limb as u128) * (factor as u128) + (carry_in as u128);
    let low: u64 = (wide % 0x1_0000_0000_0000_0000) as u64;
    let high: u64 = (wide / 0x1_0000_0000_0000_0000) as u64;
    (low, high)
}

} // verus!
