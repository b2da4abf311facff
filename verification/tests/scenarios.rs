use gf256::{Gf256, Gf256Error};

#[test]
fn add_concrete_bytes() {
    // 0x05 XOR 0xAB = 0xAE
    let r = Gf256::from_byte(0x05).add(Gf256::from_byte(0xab));
    assert_eq!(r, Gf256::from_byte(0xae));
}

#[test]
fn mul_by_one_is_identity() {
    let r = Gf256::one().mul(Gf256::from_byte(0x4b));
    assert_eq!(r, Gf256::from_byte(0x4b));
}

#[test]
fn mul_by_zero_absorbs() {
    let r = Gf256::zero().mul(Gf256::from_byte(0x7f));
    assert_eq!(r, Gf256::zero());
}

#[test]
fn div_by_zero_fails() {
    let r = Gf256::from_byte(0x05).div(Gf256::zero());
    assert_eq!(r, Err(Gf256Error::DivisionByZero));
}

#[test]
fn div_zero_by_zero_fails() {
    // Even a zero dividend does not excuse a zero divisor.
    let r = Gf256::zero().div(Gf256::zero());
    assert_eq!(r, Err(Gf256Error::DivisionByZero));
}

#[test]
fn div_by_self_gives_one() {
    let a = Gf256::from_byte(0x37);
    assert_eq!(a.div(a).unwrap(), Gf256::one());
}

#[test]
fn exp_order_and_zero_conventions() {
    // The multiplicative group has order 255.
    assert_eq!(Gf256::from_byte(0x8f).exp(255), Gf256::one());
    // Zero raised to any power is zero, the power 0 included: this field
    // keeps that convention in place of the usual reading of 0^0 as 1.
    assert_eq!(Gf256::zero().exp(0), Gf256::zero());
    assert_eq!(Gf256::zero().exp(1), Gf256::zero());
    assert_eq!(Gf256::zero().exp(255), Gf256::zero());
}

#[test]
fn byte_round_trip() {
    for b in 0..=255u8 {
        assert_eq!(Gf256::from_byte(b).to_byte(), b);
    }
}

#[test]
fn identities_have_expected_bytes() {
    assert_eq!(Gf256::zero().to_byte(), 0);
    assert_eq!(Gf256::one().to_byte(), 1);
}

#[test]
fn mul_and_div_exact_values() {
    let a = Gf256::from_byte(0x05);
    let b = Gf256::from_byte(0xab);
    assert_eq!(a.mul(b), Gf256::from_byte(0x3d));
    assert_eq!(a.div(b).unwrap(), Gf256::from_byte(0xcc));
    assert_eq!(Gf256::zero().div(b).unwrap(), Gf256::zero());
}

#[test]
fn log_exact_values() {
    assert_eq!(Gf256::zero().log(), None);
    assert_eq!(Gf256::one().log(), Some(0));
    assert_eq!(Gf256::from_byte(0x02).log(), Some(1));
    assert_eq!(Gf256::from_byte(0x8f).log(), Some(24));
}

#[test]
fn xexp_exact_values() {
    assert_eq!(Gf256::xexp(0), Gf256::one());
    assert_eq!(Gf256::xexp(1), Gf256::from_byte(0x02));
    assert_eq!(Gf256::xexp(25), Gf256::from_byte(0x03));
    // Entry 255 repeats entry 0.
    assert_eq!(Gf256::xexp(255), Gf256::one());
}

#[test]
fn inv_exact_value_and_cancellation() {
    let a = Gf256::from_byte(0x8f);
    assert_eq!(a.inv(), Some(Gf256::from_byte(0xf5)));
    for b in 1..=255u8 {
        let v = Gf256::from_byte(b);
        let w = v.inv().unwrap();
        assert_eq!(v.mul(w), Gf256::one());
    }
}

#[test]
fn add_sub_recover_everywhere() {
    for a in 0..=255u8 {
        let x = Gf256::from_byte(a);
        let y = Gf256::from_byte(a.wrapping_mul(167).wrapping_add(19));
        let s = x.add(y);
        assert_eq!(s.sub(x), y);
        assert_eq!(s.sub(y), x);
        assert_eq!(x.add(x), Gf256::zero());
    }
}

#[test]
fn mul_div_recover_on_samples() {
    for a in (1..=255u8).step_by(7) {
        for b in (0..=255u8).step_by(11) {
            let x = Gf256::from_byte(a);
            let y = Gf256::from_byte(b);
            let p = x.mul(y);
            assert_eq!(p.div(x).unwrap(), y);
            if b != 0 {
                assert_eq!(p.div(y).unwrap(), x);
            }
        }
    }
}

#[test]
fn exp_matches_repeated_mul() {
    let a = Gf256::from_byte(0x15);
    let mut acc = Gf256::one();
    for power in 0..=8u8 {
        assert_eq!(a.exp(power), acc);
        acc = acc.mul(a);
    }
    // A nonzero base raised to 0 gives one.
    assert_eq!(Gf256::from_byte(0xff).exp(0), Gf256::one());
}
