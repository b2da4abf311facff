use gf256::{Gf256, Gf256Error};

#[test]
fn test_add_sub() {
    let a = Gf256::from_byte(0x5);
    let b = Gf256::from_byte(0xab);

    let c = a.add(b);

    let b_tag = c.sub(a);
    assert_eq!(b, b_tag);

    let a_tag = c.sub(b);
    assert_eq!(a, a_tag);
}

#[test]
fn test_mul_div() {
    let a = Gf256::from_byte(0x5);
    let b = Gf256::from_byte(0xab);

    let c = a.mul(b);

    let b_tag = c.div(a).unwrap();
    assert_eq!(b, b_tag);

    let a_tag = c.div(b).unwrap();
    assert_eq!(a, a_tag);
}

#[test]
fn test_div_by_0() {
    let a = Gf256::from_byte(0x5);
    let b = Gf256::from_byte(0);

    // Dividing by zero must fail with the division-by-zero error:
    let res = a.div(b);
    assert_eq!(res, Err(Gf256Error::DivisionByZero));
}

#[test]
fn test_distributive() {
    let a = Gf256::from_byte(0x8f);
    let b = Gf256::from_byte(0x15);
    let c = Gf256::from_byte(0xa2);

    assert_eq!(a.mul(b.add(c)), a.mul(b).add(a.mul(c)));
}

#[test]
fn test_commutative() {
    let a = Gf256::from_byte(0x8f);
    let b = Gf256::from_byte(0x15);

    assert_eq!(a.add(b), b.add(a));
    assert_eq!(a.mul(b), b.mul(a));
}

#[test]
fn test_associative() {
    let a = Gf256::from_byte(0x8f);
    let b = Gf256::from_byte(0x15);
    let c = Gf256::from_byte(0xa2);

    assert_eq!(a.add(b).add(c), a.add(b.add(c)));
    assert_eq!(a.mul(b).mul(c), a.mul(b.mul(c)));
}

#[test]
fn test_inverse() {
    let a = Gf256::from_byte(0x8f);
    let b = Gf256::from_byte(0x15);
    let one = Gf256::one();

    assert_eq!(a.mul(a.inv().unwrap()), one);
    assert_eq!(a.inv().unwrap().mul(a), one);
    assert_eq!(b.mul(b.inv().unwrap()), one);
    assert_eq!(b.inv().unwrap().mul(b), one);
}

#[test]
fn test_inverse_zero() {
    let zero = Gf256::zero();

    let res = zero.inv();
    assert_eq!(res, None);
}

#[test]
fn test_exp() {
    let a = Gf256::from_byte(0x8f);

    assert_eq!(a.exp(0), Gf256::one());
    assert_eq!(a.exp(1), a);
    assert_eq!(a.exp(2), a.mul(a));
    assert_eq!(a.exp(3), a.mul(a).mul(a));

    // Fermat's little theorem:
    assert_eq!(a.exp(255), Gf256::one());
}
