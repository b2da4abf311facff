//! The field laws, stated over the same spec functions that the operations'
//! contracts use and proved for every element.

use vstd::prelude::*;
use vstd::arithmetic::div_mod::{
    lemma_add_mod_noop,
    lemma_mod_multiples_basic,
    lemma_mod_multiples_vanish,
    lemma_mod_self_0,
    lemma_small_mod,
};
use crate::model::{gf_add, gf_div, gf_inv, gf_log, gf_mul, gf_pow, gf_sub};
use crate::lemmas::{
    lemma_field_tables,
    lemma_mul_as_iter,
    lemma_mul_nonzero,
    lemma_pow_closed_form,
    lemma_xtimes_iter_xor,
};

verus! {

/// Adding `b` and then subtracting either operand recovers the other, and
/// adding an element to itself gives zero: every element is its own
/// additive inverse.
pub proof fn lemma_sub_cancels_add(a: u8, b: u8)
    ensures
        gf_sub(gf_add(a, b), a) == b,
        gf_sub(gf_add(a, b), b) == a,
        gf_add(a, a) == 0,
{
    assert(((a ^ b) ^ a) == b && ((a ^ b) ^ b) == a && (a ^ a) == 0) by (bit_vector);
}

/// Addition is commutative.
pub proof fn lemma_add_commutative(a: u8, b: u8)
    ensures
        gf_add(a, b) == gf_add(b, a),
{
    assert((a ^ b) == (b ^ a)) by (bit_vector);
}

/// Addition is associative.
pub proof fn lemma_add_associative(a: u8, b: u8, c: u8)
    ensures
        gf_add(gf_add(a, b), c) == gf_add(a, gf_add(b, c)),
{
    assert(((a ^ b) ^ c) == (a ^ (b ^ c))) by (bit_vector);
}

/// Multiplication is commutative.
pub proof fn lemma_mul_commutative(a: u8, b: u8)
    ensures
        gf_mul(a, b) == gf_mul(b, a),
{
}

/// Multiplication is associative.
pub proof fn lemma_mul_associative(a: u8, b: u8, c: u8)
    ensures
        gf_mul(gf_mul(a, b), c) == gf_mul(a, gf_mul(b, c)),
{
    if a != 0 && b != 0 && c != 0 {
        lemma_field_tables();
        lemma_mul_nonzero(a, b);
        lemma_mul_nonzero(b, c);
        let la = gf_log(a) as int;
        let lb = gf_log(b) as int;
        let lc = gf_log(c) as int;
        lemma_add_mod_noop(la + lb, lc, 255);
        lemma_small_mod(lc as nat, 255);
        lemma_add_mod_noop(la, lb + lc, 255);
        lemma_small_mod(la as nat, 255);
    }
}

/// Multiplication distributes over addition.
pub proof fn lemma_mul_distributive(a: u8, b: u8, c: u8)
    ensures
        gf_mul(a, gf_add(b, c)) == gf_add(gf_mul(a, b), gf_mul(a, c)),
{
    let mb = gf_mul(a, b);
    let mc = gf_mul(a, c);
    if a == 0 {
        assert((0u8 ^ 0u8) == 0u8) by (bit_vector);
    } else if b == 0 {
        assert((0u8 ^ c) == c) by (bit_vector);
        assert((0u8 ^ mc) == mc) by (bit_vector);
    } else if c == 0 {
        assert((b ^ 0u8) == b) by (bit_vector);
        assert((mb ^ 0u8) == mb) by (bit_vector);
    } else if b == c {
        assert((b ^ b) == 0u8) by (bit_vector);
        assert((mb ^ mb) == 0u8) by (bit_vector);
    } else {
        lemma_field_tables();
        assert(b ^ c != 0) by (bit_vector)
            requires
                b != c,
        ;
        lemma_mul_as_iter(a, b);
        lemma_mul_as_iter(a, c);
        lemma_mul_as_iter(a, b ^ c);
        lemma_xtimes_iter_xor(gf_log(a) as nat, b, c);
    }
}

/// Every nonzero element has a nonzero multiplicative inverse, and the two
/// multiply to 1.
pub proof fn lemma_inv_cancels(a: u8)
    requires
        a != 0,
    ensures
        gf_inv(a) != 0,
        gf_mul(a, gf_inv(a)) == 1,
{
    lemma_field_tables();
    let la = gf_log(a) as int;
    if la == 0 {
        lemma_small_mod(0, 255);
    } else {
        lemma_mod_self_0(255);
    }
}

/// Multiplying by a nonzero element is undone by dividing by it, on either
/// side.
pub proof fn lemma_div_cancels_mul(a: u8, b: u8)
    ensures
        a != 0 ==> gf_div(gf_mul(a, b), a) == b,
        b != 0 ==> gf_div(gf_mul(a, b), b) == a,
{
    if a != 0 {
        lemma_div_cancels_left(a, b);
    }
    if b != 0 {
        lemma_mul_commutative(a, b);
        lemma_div_cancels_left(b, a);
    }
}

proof fn lemma_div_cancels_left(a: u8, b: u8)
    requires
        a != 0,
    ensures
        gf_div(gf_mul(a, b), a) == b,
{
    if b != 0 {
        lemma_field_tables();
        lemma_mul_nonzero(a, b);
        let la = gf_log(a) as int;
        let lb = gf_log(b) as int;
        lemma_small_mod(lb as nat, 255);
        lemma_mod_multiples_vanish(1, lb, 255);
        if la == 0 {
            lemma_small_mod((la + lb) as nat, 255);
        } else {
            lemma_add_mod_noop(la + lb, 255 - la, 255);
            lemma_small_mod((255 - la) as nat, 255);
        }
    }
}

/// Raising a nonzero element to the power 0 gives 1.
pub proof fn lemma_pow_zero_exponent(a: u8)
    requires
        a != 0,
    ensures
        gf_pow(a, 0) == 1,
{
}

/// Every nonzero element raised to the power 255 gives 1: the
/// multiplicative group has order 255.
pub proof fn lemma_pow_order(a: u8)
    requires
        a != 0,
    ensures
        gf_pow(a, 255) == 1,
{
    lemma_field_tables();
    lemma_pow_closed_form(a, 255);
    lemma_mod_multiples_basic(gf_log(a) as int, 255);
}

} // verus!
