//! Arithmetic in the ring of integers modulo `p`.

use crate::natural::Natural;
use vstd::arithmetic::div_mod::{
    lemma_add_mod_noop_right, lemma_mod_add_multiples_vanish, lemma_mod_bound,
    lemma_mul_mod_noop_right, lemma_sub_mod_noop_right,
};
use vstd::arithmetic::power::pow;
use vstd::prelude::*;

verus! {

/// `(x + y) mod p`.
pub open spec fn add_mod(x: int, y: int, p: int) -> int {
    (x + y) % p
}

/// `(x - y) mod p`, always in `[0, p)`.
pub open spec fn sub_mod(x: int, y: int, p: int) -> int {
    (x - y) % p
}

/// `(x * y) mod p`.
pub open spec fn mul_mod(x: int, y: int, p: int) -> int {
    (x * y) % p
}

/// The inverse of `y` by Fermat's little theorem: `y^(p-2) mod p`.
pub open spec fn inv_mod(y: int, p: int) -> int {
    pow(y, (p - 2) as nat) % p
}

/// `x / y` in the field: `x * y^(p-2) mod p`.
pub open spec fn div_mod(x: int, y: int, p: int) -> int {
    (x * inv_mod(y, p)) % p
}

/// The integers modulo `p`; `p` is meant to be prime.
#[derive(Debug)]
pub struct FiniteField {
    pub p: Natural,
}

impl FiniteField {
    pub fn add(&self, x: &Natural, y: &Natural) -> (r: Natural)
        requires
            self.p@ > 0,
        ensures
            r@ == add_mod(x@ as int, y@ as int, self.p@ as int),
    {
        x.add(y).rem(&self.p)
    }

    /// Subtraction through the additive inverse `(p - y mod p) mod p`.
    pub fn sub(&self, x: &Natural, y: &Natural) -> (r: Natural)
        requires
            self.p@ > 0,
        ensures
            r@ == sub_mod(x@ as int, y@ as int, self.p@ as int),
    {
        let y_reduced = y.rem(&self.p);
        let neg_y = self.p.sub(&y_reduced).rem(&self.p);
        let r = self.add(x, &neg_y);
        proof {
            let (xi, yi, p) = (x@ as int, y@ as int, self.p@ as int);
            let t = yi % p;
            lemma_add_mod_noop_right(xi, p - t, p);
            lemma_mod_add_multiples_vanish(xi - t, p);
            lemma_sub_mod_noop_right(xi, yi, p);
            assert(xi + (p - t) == p + (xi - t));
        }
        r
    }

    pub fn mul(&self, x: &Natural, y: &Natural) -> (r: Natural)
        requires
            self.p@ > 0,
        ensures
            r@ == mul_mod(x@ as int, y@ as int, self.p@ as int),
    {
        x.mul(y).rem(&self.p)
    }

    /// Division through the inverse `y^(p-2) mod p`; `y` must not be `0 mod p`.
    pub fn div(&self, x: &Natural, y: &Natural) -> (r: Natural)
        requires
            self.p@ >= 2,
            y@ % self.p@ != 0,
        ensures
            r@ == div_mod(x@ as int, y@ as int, self.p@ as int),
    {
        let two = Natural::from_u64(2);
        let p_minus_2 = self.p.sub(&two);
        let y_inverse = y.pow_mod(&p_minus_2, &self.p);
        let r = self.mul(x, &y_inverse);
        proof {
            lemma_mul_mod_noop_right(x@ as int, pow(y@ as int, p_minus_2@), self.p@ as int);
        }
        r
    }
}

/// Every result of the field's operations lies in `[0, p)`.
pub proof fn lemma_results_reduced(x: int, y: int, p: int)
    requires
        p > 0,
    ensures
        0 <= add_mod(x, y, p) < p,
        0 <= sub_mod(x, y, p) < p,
        0 <= mul_mod(x, y, p) < p,
        0 <= div_mod(x, y, p) < p,
{
    lemma_mod_bound(x + y, p);
    lemma_mod_bound(x - y, p);
    lemma_mod_bound(x * y, p);
    lemma_mod_bound(x * inv_mod(y, p), p);
}

/// Adding the additive inverse `0 - x` gives zero.
pub proof fn lemma_add_inverse_is_zero(x: int, p: int)
    requires
        p > 0,
    ensures
        add_mod(x, sub_mod(0, x, p), p) == 0,
{
    lemma_add_mod_noop_right(x, 0 - x, p);
    vstd::arithmetic::div_mod::lemma_mod_self_0(p);
    vstd::arithmetic::div_mod::lemma_mod_add_multiples_vanish(0, p);
}

} // verus!
