//! The group of points of `y^2 = x^3 + a x + b` over the integers modulo `p`.

use crate::field::{add_mod, div_mod, lemma_results_reduced, mul_mod, sub_mod, FiniteField};
use crate::natural::Natural;
use vstd::arithmetic::div_mod::{
    lemma_add_mod_noop_right, lemma_mod_add_multiples_vanish, lemma_mod_bound,
    lemma_mod_sub_multiples_vanish, lemma_mod_twice, lemma_mul_mod_noop_left, lemma_small_mod,
};
use vstd::prelude::*;

verus! {

/// A point as Verus sees it: `None` is the identity, `Some((x, y))` an affine point.
pub type PointModel = Option<(int, int)>;

/// The curve equation `y^2 = x^3 + a x + b (mod p)`; the identity is on every curve.
pub open spec fn on_curve(a: int, b: int, p: int, pt: PointModel) -> bool {
    match pt {
        None => true,
        Some((x, y)) => (y * y) % p == (x * x * x + a * x + b) % p,
    }
}

/// Both coordinates lie in `[0, p)`.
pub open spec fn reduced(p: int, pt: PointModel) -> bool {
    match pt {
        None => true,
        Some((x, y)) => 0 <= x < p && 0 <= y < p,
    }
}

/// The additive inverse `(x, p - y mod p)`.
pub open spec fn negate(p: int, pt: PointModel) -> PointModel {
    match pt {
        None => None,
        Some((x, y)) => Some((x, (p - y) % p)),
    }
}

/// Doubling by the tangent: slope `(3x^2 + a) / 2y`; a point with `y = 0` doubles to the identity.
pub open spec fn ec_double(a: int, p: int, pt: PointModel) -> PointModel {
    match pt {
        None => None,
        Some((x, y)) => if y == 0 {
            None
        } else {
            let s = div_mod(add_mod(mul_mod(3, mul_mod(x, x, p), p), a, p), mul_mod(2, y, p), p);
            let x3 = sub_mod(mul_mod(s, s, p), mul_mod(2, x, p), p);
            let y3 = sub_mod(mul_mod(s, sub_mod(x, x3, p), p), y, p);
            Some((x3, y3))
        },
    }
}

/// The chord rule: slope `(y2 - y1) / (x2 - x1)`; equal points double, opposite ones cancel.
pub open spec fn ec_add(a: int, p: int, pt: PointModel, q: PointModel) -> PointModel {
    match pt {
        None => q,
        Some((x1, y1)) => match q {
            None => pt,
            Some((x2, y2)) => if x1 == x2 {
                if y1 == y2 {
                    ec_double(a, p, pt)
                } else {
                    None
                }
            } else {
                let s = div_mod(sub_mod(y2, y1, p), sub_mod(x2, x1, p), p);
                let x3 = sub_mod(sub_mod(mul_mod(s, s, p), x1, p), x2, p);
                let y3 = sub_mod(mul_mod(s, sub_mod(x1, x3, p), p), y1, p);
                Some((x3, y3))
            },
        },
    }
}

/// Double-and-add from the least significant bit of `k`: `acc` gathers the
/// powers `addend * 2^i` for each set bit, in that order.
pub open spec fn ladder(a: int, p: int, acc: PointModel, addend: PointModel, k: nat) -> PointModel
    decreases k,
{
    if k == 0 {
        acc
    } else {
        let next = if k % 2 == 1 {
            ec_add(a, p, acc, addend)
        } else {
            acc
        };
        ladder(a, p, next, ec_double(a, p, addend), k / 2)
    }
}

/// `k * pt`, with `0 * pt` the identity and `1 * pt = pt`.
pub open spec fn scalar_mul(a: int, p: int, pt: PointModel, k: nat) -> PointModel {
    if k == 0 {
        None
    } else if k == 1 {
        pt
    } else {
        ladder(a, p, None, pt, k)
    }
}

/// A point of a curve: an affine coordinate pair or the point at infinity.
#[derive(Debug)]
pub enum Point {
    Coordinate(Natural, Natural),
    Identity,
}

impl View for Point {
    type V = PointModel;

    open spec fn view(&self) -> PointModel {
        match self {
            Point::Coordinate(x, y) => Some((x@ as int, y@ as int)),
            Point::Identity => None,
        }
    }
}

impl Clone for Point {
    fn clone(&self) -> (r: Point)
        ensures
            r@ == self@,
    {
        match self {
            Point::Coordinate(x, y) => Point::Coordinate(x.clone(), y.clone()),
            Point::Identity => Point::Identity,
        }
    }
}

impl PartialEq for Point {
    fn eq(&self, o: &Point) -> (r: bool) {
        match (self, o) {
            (Point::Coordinate(x1, y1), Point::Coordinate(x2, y2)) => x1 == x2 && y1 == y2,
            (Point::Identity, Point::Identity) => true,
            _ => false,
        }
    }
}

impl vstd::std_specs::cmp::PartialEqSpecImpl for Point {
    open spec fn obeys_eq_spec() -> bool {
        true
    }

    open spec fn eq_spec(&self, o: &Point) -> bool {
        self@ == o@
    }
}

/// `y^2 = x^3 + a x + b (mod p)`.
#[derive(Debug)]
pub struct EllipticCurve {
    pub a: Natural,
    pub b: Natural,
    pub p: Natural,
}

proof fn lemma_twice_nonzero(y: int, p: int)
    requires
        0 < y < p,
        p % 2 == 1,
    ensures
        (2 * y) % p != 0,
{
    if 2 * y < p {
        lemma_small_mod((2 * y) as nat, p as nat);
    } else {
        lemma_mod_sub_multiples_vanish(2 * y, p);
        lemma_small_mod((2 * y - p) as nat, p as nat);
    }
}

proof fn lemma_difference_nonzero(u: int, v: int, p: int)
    requires
        0 <= u < p,
        0 <= v < p,
        u != v,
    ensures
        (u - v) % p != 0,
{
    if u > v {
        lemma_small_mod((u - v) as nat, p as nat);
    } else {
        lemma_mod_add_multiples_vanish(u - v, p);
        lemma_small_mod((p + u - v) as nat, p as nat);
    }
}

impl EllipticCurve {
    /// The modulus is odd and at least 3, as a prime field for this group law needs.
    pub open spec fn wf(&self) -> bool {
        self.p@ >= 3 && self.p@ % 2 == 1
    }

    fn field(&self) -> (f: FiniteField)
        ensures
            f.p@ == self.p@,
    {
        FiniteField { p: self.p.clone() }
    }

    pub fn is_on_curve(&self, point: &Point) -> (r: bool)
        requires
            self.p@ > 0,
        ensures
            r == on_curve(self.a@ as int, self.b@ as int, self.p@ as int, point@),
    {
        match point {
            Point::Identity => true,
            Point::Coordinate(x, y) => {
                let field = self.field();
                let y_squared = field.mul(y, y);
                let x_squared = field.mul(x, x);
                let x_cubed = field.mul(&x_squared, x);
                let ax = field.mul(&self.a, x);
                let right_side = field.add(&field.add(&x_cubed, &ax), &self.b);
                proof {
                    let (xi, ai, bi, p) = (x@ as int, self.a@ as int, self.b@ as int, self.p@ as int);
                    lemma_mul_mod_noop_left(xi * xi, xi, p);
                    vstd::arithmetic::div_mod::lemma_add_mod_noop(xi * xi * xi, ai * xi, p);
                    lemma_mod_twice(xi * xi * xi, p);
                    lemma_mod_twice(ai * xi, p);
                    lemma_add_mod_noop_right(bi, xi * xi * xi + ai * xi, p);
                }
                y_squared == right_side
            },
        }
    }

    pub fn double(&self, p: &Point) -> (r: Point)
        requires
            self.wf(),
            reduced(self.p@ as int, p@),
        ensures
            r@ == ec_double(self.a@ as int, self.p@ as int, p@),
            reduced(self.p@ as int, r@),
    {
        match p {
            Point::Identity => Point::Identity,
            Point::Coordinate(x, y) => {
                let field = self.field();
                if y.is_zero() {
                    return Point::Identity;
                }
                let three = Natural::from_u64(3);
                let two = Natural::from_u64(2);
                let x_squared = field.mul(x, x);
                let three_x_squared = field.mul(&three, &x_squared);
                let numerator = field.add(&three_x_squared, &self.a);
                let denominator = field.mul(&two, y);
                proof {
                    lemma_twice_nonzero(y@ as int, self.p@ as int);
                    lemma_mod_twice(2 * (y@ as int), self.p@ as int);
                }
                let slope = field.div(&numerator, &denominator);
                let slope_squared = field.mul(&slope, &slope);
                let two_x = field.mul(&two, x);
                let x3 = field.sub(&slope_squared, &two_x);
                let dx_x3 = field.sub(x, &x3);
                let y3 = field.sub(&field.mul(&slope, &dx_x3), y);
                proof {
                    lemma_results_reduced(slope_squared@ as int, two_x@ as int, self.p@ as int);
                    lemma_results_reduced((slope@ * dx_x3@) as int, y@ as int, self.p@ as int);
                }
                Point::Coordinate(x3, y3)
            },
        }
    }

    pub fn add(&self, p: &Point, q: &Point) -> (r: Point)
        requires
            self.wf(),
            reduced(self.p@ as int, p@),
            reduced(self.p@ as int, q@),
        ensures
            r@ == ec_add(self.a@ as int, self.p@ as int, p@, q@),
            reduced(self.p@ as int, r@),
    {
        match p {
            Point::Identity => q.clone(),
            Point::Coordinate(x1, y1) => match q {
                Point::Identity => p.clone(),
                Point::Coordinate(x2, y2) => {
                    let field = self.field();
                    if x1 == x2 {
                        if y1 == y2 {
                            self.double(p)
                        } else {
                            Point::Identity
                        }
                    } else {
                        let dy = field.sub(y2, y1);
                        let dx = field.sub(x2, x1);
                        proof {
                            lemma_difference_nonzero(x2@ as int, x1@ as int, self.p@ as int);
                            lemma_mod_twice(x2@ - x1@, self.p@ as int);
                        }
                        let slope = field.div(&dy, &dx);
                        let slope_squared = field.mul(&slope, &slope);
                        let x3 = field.sub(&field.sub(&slope_squared, x1), x2);
                        let dx1_x3 = field.sub(x1, &x3);
                        let y3 = field.sub(&field.mul(&slope, &dx1_x3), y1);
                        proof {
                            lemma_results_reduced(
                                sub_mod(slope_squared@ as int, x1@ as int, self.p@ as int),
                                x2@ as int,
                                self.p@ as int,
                            );
                            lemma_results_reduced((slope@ * dx1_x3@) as int, y1@ as int, self.p@ as int);
                        }
                        Point::Coordinate(x3, y3)
                    }
                },
            },
        }
    }

    /// `k * point` by double-and-add, from the least significant bit of `k`.
    pub fn scalar_mult(&self, point: &Point, k: &Natural) -> (r: Point)
        requires
            self.wf(),
            reduced(self.p@ as int, point@),
        ensures
            r@ == scalar_mul(self.a@ as int, self.p@ as int, point@, k@),
            reduced(self.p@ as int, r@),
    {
        let one = Natural::from_u64(1);
        if k.is_zero() {
            return Point::Identity;
        }
        if *k == one {
            return point.clone();
        }
        let two = Natural::from_u64(2);
        let mut result = Point::Identity;
        let mut addend = point.clone();
        let mut scalar = k.clone();
        while !scalar.is_zero()
            invariant
                self.wf(),
                one@ == 1,
                two@ == 2,
                reduced(self.p@ as int, result@),
                reduced(self.p@ as int, addend@),
                ladder(self.a@ as int, self.p@ as int, result@, addend@, scalar@) == ladder(
                    self.a@ as int,
                    self.p@ as int,
                    None,
                    point@,
                    k@,
                ),
            decreases scalar@,
        {
            if scalar.rem(&two) == one {
                result = self.add(&result, &addend);
            }
            addend = self.double(&addend);
            scalar = scalar.div(&two);
        }
        result
    }
}

/// The identity is neutral on both sides.
pub proof fn lemma_identity_laws(a: int, p: int, pt: PointModel)
    ensures
        ec_add(a, p, None, pt) == pt,
        ec_add(a, p, pt, None) == pt,
{
}

/// Addition commutes when one operand is the identity or both share their
/// x-coordinate (the cases that take no chord slope).
pub proof fn lemma_add_commutes_without_chord(a: int, p: int, pt: PointModel, q: PointModel)
    requires
        pt is None || q is None || pt.unwrap().0 == q.unwrap().0,
    ensures
        ec_add(a, p, pt, q) == ec_add(a, p, q, pt),
{
}

/// A point plus its negation is the identity.
pub proof fn lemma_add_negation(a: int, p: int, pt: PointModel)
    requires
        p >= 3,
        p % 2 == 1,
        reduced(p, pt),
    ensures
        ec_add(a, p, pt, negate(p, pt)) == None::<(int, int)>,
{
    if let Some((x, y)) = pt {
        if y == 0 {
            vstd::arithmetic::div_mod::lemma_mod_self_0(p);
        } else {
            lemma_small_mod((p - y) as nat, p as nat);
        }
    }
}

/// `0 * P` is the identity, `1 * P = P`, `2 * P = P + P`, and `3 * P = P + 2 * P`.
pub proof fn lemma_small_multiples(a: int, p: int, pt: PointModel)
    ensures
        scalar_mul(a, p, pt, 0) == None::<(int, int)>,
        scalar_mul(a, p, pt, 1) == pt,
        scalar_mul(a, p, pt, 2) == ec_add(a, p, pt, pt),
        scalar_mul(a, p, pt, 3) == ec_add(a, p, pt, scalar_mul(a, p, pt, 2)),
{
    let d = ec_double(a, p, pt);
    assert(ladder(a, p, None, pt, 2) == ladder(a, p, None, d, 1));
    assert(ladder(a, p, None, d, 1) == ladder(a, p, ec_add(a, p, None, d), ec_double(a, p, d), 0));
    assert(ladder(a, p, None, pt, 3) == ladder(a, p, pt, d, 1));
    assert(ladder(a, p, pt, d, 1) == ladder(a, p, ec_add(a, p, pt, d), ec_double(a, p, d), 0));
}

} // verus!
