use elliptic_curve::{FiniteField, Natural};

fn num(v: u64) -> Natural {
    Natural::from_u64(v)
}

fn field11() -> FiniteField {
    FiniteField { p: num(11) }
}

#[test]
fn test_add() {
    let x = num(17);
    let y = num(3);
    let res = num(9);
    let field = field11();
    assert_eq!(field.add(&x, &y), res);
}

#[test]
fn test_sub() {
    let x = num(17);
    let y = num(3);
    let res = num(3);
    let field = field11();
    assert_eq!(field.sub(&x, &y), res);
}

#[test]
fn test_mul() {
    let x = num(17);
    let y = num(3);
    let res = num(7);
    let field = field11();
    assert_eq!(field.mul(&x, &y), res);
}

#[test]
fn test_div() {
    let x = num(17);
    let y = num(3);
    let res = num(2);
    let field = field11();
    assert_eq!(field.div(&x, &y), res);
}

#[test]
fn test_multiplicative_identity() {
    let x = num(4);
    let field = field11();
    let one = num(1);
    let x_inverse = field.div(&one, &x);
    assert_eq!(field.mul(&x, &x_inverse), one);
}

#[test]
fn test_additive_identity() {
    let x = num(7);
    let field = field11();
    let zero = num(0);
    let neg_x = field.sub(&zero, &x);
    assert_eq!(field.add(&x, &neg_x), zero);
}

#[test]
fn sub_of_larger_operand_wraps() {
    let field = field11();
    assert_eq!(field.sub(&num(3), &num(5)), num(9));
    assert_eq!(field.sub(&num(3), &num(25)), num(0));
    assert_eq!(field.sub(&num(0), &num(0)), num(0));
}

#[test]
fn div_then_mul_round_trips() {
    let field = field11();
    for x in 0..25u64 {
        for y in 1..11u64 {
            let q = field.div(&num(x), &num(y));
            assert_eq!(field.mul(&q, &num(y)), num(x % 11));
        }
    }
}

#[test]
fn additive_inverse_for_many_values() {
    let field = FiniteField { p: num(17) };
    for x in 0..40u64 {
        let neg = field.sub(&num(0), &num(x));
        assert_eq!(field.add(&num(x), &neg), num(0));
    }
}

#[test]
fn large_values_stay_exact() {
    let p = num(u64::MAX).mul(&num(u64::MAX)).add(&num(4));
    let field = FiniteField { p };
    let big = num(u64::MAX).mul(&num(3));
    let r = field.mul(&big, &big);
    let expected = num(u64::MAX).mul(&num(u64::MAX)).mul(&num(9));
    assert_eq!(r, expected.rem(&field.p));
    assert!(num(5).lt(&num(6)));
    assert!(!num(6).lt(&num(6)));
    assert_eq!(num(1 << 40).div(&num(1 << 8)), num(1 << 32));
    assert_eq!(num(3).pow_mod(&num(4), &num(7)), num(4));
    assert_eq!(Natural::from_bytes_be(&[1, 0]), num(256));
    assert!(Natural::zero().is_zero());
}
