//! Arbitrary-precision non-negative integers, stored as base-2^32 digits
//! (least significant first). Every arithmetic step is carried out by
//! num-bigint's `BigUint`.

use num_bigint::{BigUint, RandBigInt};
use vstd::prelude::*;

verus! {

/// The value of little-endian base-2^32 digits.
pub open spec fn digits_value(d: Seq<u32>) -> nat
    decreases d.len(),
{
    if d.len() == 0 {
        0
    } else {
        (d[0] as int + 0x1_0000_0000int * digits_value(d.subrange(1, d.len() as int))) as nat
    }
}

/// The value of a big-endian byte string.
pub open spec fn be_bytes_value(b: Seq<u8>) -> nat
    decreases b.len(),
{
    if b.len() == 0 {
        0
    } else {
        (be_bytes_value(b.drop_last()) * 256 + b.last() as int) as nat
    }
}

/// A non-negative integer of any size.
#[derive(Debug)]
pub struct Natural {
    digits: Vec<u32>,
}

impl View for Natural {
    type V = nat;

    closed spec fn view(&self) -> nat {
        digits_value(self.digits@)
    }
}

/// Relies on `BigUint::from(u64)` and `BigUint::to_u32_digits`: the same value.
#[verifier::external_body]
fn natural_of_u64(v: u64) -> (r: Natural)
    ensures
        r@ == v as nat,
{
    Natural { digits: BigUint::from(v).to_u32_digits() }
}

/// Relies on `BigUint`'s `+`: the sum.
#[verifier::external_body]
fn sum_of(x: &Natural, y: &Natural) -> (r: Natural)
    ensures
        r@ == x@ + y@,
{
    let v = BigUint::from_slice(&x.digits) + BigUint::from_slice(&y.digits);
    Natural { digits: v.to_u32_digits() }
}

/// Relies on `BigUint`'s `-`, which panics when the result would be negative.
#[verifier::external_body]
fn difference_of(x: &Natural, y: &Natural) -> (r: Natural)
    requires
        y@ <= x@,
    ensures
        r@ == x@ - y@,
{
    let v = BigUint::from_slice(&x.digits) - BigUint::from_slice(&y.digits);
    Natural { digits: v.to_u32_digits() }
}

/// Relies on `BigUint`'s `*`: the product.
#[verifier::external_body]
fn product_of(x: &Natural, y: &Natural) -> (r: Natural)
    ensures
        r@ == x@ * y@,
{
    let v = BigUint::from_slice(&x.digits) * BigUint::from_slice(&y.digits);
    Natural { digits: v.to_u32_digits() }
}

/// Relies on `BigUint`'s `%`: the remainder, which panics on a zero divisor.
#[verifier::external_body]
fn remainder_of(x: &Natural, m: &Natural) -> (r: Natural)
    requires
        m@ > 0,
    ensures
        r@ == x@ % m@,
{
    let v = BigUint::from_slice(&x.digits) % BigUint::from_slice(&m.digits);
    Natural { digits: v.to_u32_digits() }
}

/// Relies on `BigUint`'s `/`: the floor quotient, which panics on a zero divisor.
#[verifier::external_body]
fn quotient_of(x: &Natural, m: &Natural) -> (r: Natural)
    requires
        m@ > 0,
    ensures
        r@ == x@ / m@,
{
    let v = BigUint::from_slice(&x.digits) / BigUint::from_slice(&m.digits);
    Natural { digits: v.to_u32_digits() }
}

/// Relies on `BigUint::modpow`: `(base ^ exponent) % modulus`; it panics on a zero modulus.
#[verifier::external_body]
fn power_mod_of(base: &Natural, exponent: &Natural, modulus: &Natural) -> (r: Natural)
    requires
        modulus@ > 0,
    ensures
        r@ == vstd::arithmetic::power::pow(base@ as int, exponent@) % (modulus@ as int),
{
    let b = BigUint::from_slice(&base.digits);
    let v = b.modpow(&BigUint::from_slice(&exponent.digits), &BigUint::from_slice(&modulus.digits));
    Natural { digits: v.to_u32_digits() }
}

/// Relies on `BigUint`'s `==`: numeric equality.
#[verifier::external_body]
fn equal_values(x: &Natural, y: &Natural) -> (r: bool)
    ensures
        r == (x@ == y@),
{
    BigUint::from_slice(&x.digits) == BigUint::from_slice(&y.digits)
}

/// Relies on `BigUint`'s `<`: numeric order.
#[verifier::external_body]
fn less_than(x: &Natural, y: &Natural) -> (r: bool)
    ensures
        r == (x@ < y@),
{
    BigUint::from_slice(&x.digits) < BigUint::from_slice(&y.digits)
}

/// Relies on `BigUint::from_bytes_be`: the bytes read as a big-endian integer.
#[verifier::external_body]
fn natural_of_be_bytes(b: &[u8]) -> (r: Natural)
    ensures
        r@ == be_bytes_value(b@),
{
    Natural { digits: BigUint::from_bytes_be(b).to_u32_digits() }
}

/// Relies on num-bigint's `RandBigInt::gen_biguint_range` over `rand::thread_rng`:
/// a random value in `[lo, hi)`; it panics unless `lo < hi`.
#[verifier::external_body]
pub(crate) fn random_in_range(lo: &Natural, hi: &Natural) -> (r: Natural)
    requires
        lo@ < hi@,
    ensures
        lo@ <= r@ < hi@,
{
    let (l, h) = (BigUint::from_slice(&lo.digits), BigUint::from_slice(&hi.digits));
    Natural { digits: rand::thread_rng().gen_biguint_range(&l, &h).to_u32_digits() }
}

impl Natural {
    /// Zero.
    pub fn zero() -> (r: Natural)
        ensures
            r@ == 0,
    {
        Natural { digits: Vec::new() }
    }

    /// The value of a machine integer.
    pub fn from_u64(v: u64) -> (r: Natural)
        ensures
            r@ == v as nat,
    {
        natural_of_u64(v)
    }

    /// The integer with these base-2^32 digits, least significant first.
    pub fn from_u32_digits(digits: Vec<u32>) -> (r: Natural)
        ensures
            r@ == digits_value(digits@),
    {
        Natural { digits }
    }

    /// Base-2^32 digits of the value, least significant first.
    pub fn to_u32_digits(&self) -> (r: Vec<u32>)
        ensures
            digits_value(r@) == self@,
    {
        self.digits.clone()
    }

    /// The integer whose big-endian bytes are `b`.
    pub fn from_bytes_be(b: &[u8]) -> (r: Natural)
        ensures
            r@ == be_bytes_value(b@),
    {
        natural_of_be_bytes(b)
    }

    pub fn add(&self, o: &Natural) -> (r: Natural)
        ensures
            r@ == self@ + o@,
    {
        sum_of(self, o)
    }

    /// `self - o`; `o` may not exceed `self`.
    pub fn sub(&self, o: &Natural) -> (r: Natural)
        requires
            o@ <= self@,
        ensures
            r@ == self@ - o@,
    {
        difference_of(self, o)
    }

    pub fn mul(&self, o: &Natural) -> (r: Natural)
        ensures
            r@ == self@ * o@,
    {
        product_of(self, o)
    }

    pub fn rem(&self, m: &Natural) -> (r: Natural)
        requires
            m@ > 0,
        ensures
            r@ == self@ % m@,
    {
        remainder_of(self, m)
    }

    pub fn div(&self, m: &Natural) -> (r: Natural)
        requires
            m@ > 0,
        ensures
            r@ == self@ / m@,
    {
        quotient_of(self, m)
    }

    /// `(self ^ e) % m`.
    pub fn pow_mod(&self, e: &Natural, m: &Natural) -> (r: Natural)
        requires
            m@ > 0,
        ensures
            r@ == vstd::arithmetic::power::pow(self@ as int, e@) % (m@ as int),
    {
        power_mod_of(self, e, m)
    }

    pub fn lt(&self, o: &Natural) -> (r: bool)
        ensures
            r == (self@ < o@),
    {
        less_than(self, o)
    }

    pub fn is_zero(&self) -> (r: bool)
        ensures
            r == (self@ == 0),
    {
        equal_values(self, &Natural::zero())
    }
}

impl Clone for Natural {
    fn clone(&self) -> (r: Natural)
        ensures
            r@ == self@,
    {
        Natural { digits: self.digits.clone() }
    }
}

impl PartialEq for Natural {
    fn eq(&self, o: &Natural) -> (r: bool) {
        equal_values(self, o)
    }
}

impl vstd::std_specs::cmp::PartialEqSpecImpl for Natural {
    open spec fn obeys_eq_spec() -> bool {
        true
    }

    open spec fn eq_spec(&self, o: &Natural) -> bool {
        self@ == o@
    }
}

} // verus!
