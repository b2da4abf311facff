//! Proofs about the model.
//!
//! The central fact is that the exponent table is exactly the orbit of the
//! generator — entry `i` is `x^i` — and that the powers `x^0 .. x^254`
//! enumerate every nonzero byte exactly once, so the exponent and logarithm
//! tables are mutually inverse. The table entries are checked against the
//! multiply-by-x recurrence in bit-vector mode, where a claim quantified
//! over a byte is decidable; induction then ties them to `power_of_x`. The
//! remaining lemmas turn the table-based definitions of multiplication and
//! division into algebraic facts: multiplying by `x^n` is `n` applications
//! of the multiply-by-x step, which is linear over XOR.

use vstd::prelude::*;
use vstd::arithmetic::div_mod::{
    lemma_add_mod_noop_right,
    lemma_mod_bound,
    lemma_mod_multiples_vanish,
    lemma_small_mod,
};
use crate::model::{
    exp_entry,
    gf_log,
    gf_mul,
    gf_pow,
    power_of_x,
    spec_xtimes,
    xtimes_iter,
};

verus! {

/// Each exponent entry below 255 steps to the next entry under the
/// multiply-by-x recurrence, and the table is closed at both ends by 1.
#[verifier::rlimit(100)]
proof fn lemma_entry_recurrence()
    by (bit_vector)
    ensures
        exp_entry(0) == 1,
        exp_entry(255) == 1,
        forall|i: u8| i < 255 ==> spec_xtimes(#[trigger] exp_entry(i)) == exp_entry((i + 1) as u8),
{
}

/// Each exponent entry below 255 is nonzero, and the logarithm table sends
/// it back to its index.
#[verifier::rlimit(100)]
proof fn lemma_log_inverts_exp()
    by (bit_vector)
    ensures
        forall|i: u8| i < 255 ==> (#[trigger] exp_entry(i)) != 0,
        forall|i: u8| i < 255 ==> gf_log(#[trigger] exp_entry(i)) == i,
{
}

/// Every nonzero byte has a logarithm below 255 that the exponent table
/// sends back to the byte.
#[verifier::rlimit(100)]
proof fn lemma_exp_inverts_log()
    by (bit_vector)
    ensures
        forall|v: u8| v != 0 ==> (#[trigger] gf_log(v)) < 255 && exp_entry(gf_log(v)) == v,
{
}

/// The table entries satisfy the generating recurrence and are mutually
/// inverse.
proof fn lemma_table_entries()
    ensures
        exp_entry(0) == 1,
        exp_entry(255) == 1,
        forall|i: u8| i < 255 ==> spec_xtimes(#[trigger] exp_entry(i)) == exp_entry((i + 1) as u8),
        forall|i: u8| i < 255 ==> (#[trigger] exp_entry(i)) != 0,
        forall|i: u8| i < 255 ==> gf_log(#[trigger] exp_entry(i)) == i,
        forall|v: u8| v != 0 ==> (#[trigger] gf_log(v)) < 255 && exp_entry(gf_log(v)) == v,
{
    lemma_entry_recurrence();
    lemma_log_inverts_exp();
    lemma_exp_inverts_log();
}

/// The exponent table tabulates the powers of the generator.
proof fn lemma_power_matches_entry(n: nat)
    requires
        n <= 255,
    ensures
        power_of_x(n) == exp_entry(n as u8),
    decreases n,
{
    lemma_table_entries();
    if n > 0 {
        lemma_power_matches_entry((n - 1) as nat);
        assert(power_of_x(n) == spec_xtimes(power_of_x((n - 1) as nat)));
        assert(exp_entry((((n - 1) as u8) + 1) as u8) == exp_entry(n as u8));
    }
}

/// The generator has multiplicative order 255: its first 255 powers are
/// nonzero and pairwise distinct (the logarithm inverts the exponent),
/// every nonzero byte is such a power, and `x^255 == x^0 == 1`.
pub proof fn lemma_field_tables()
    ensures
        power_of_x(0) == 1,
        power_of_x(255) == 1,
        forall|i: nat| i < 255 ==> (#[trigger] power_of_x(i)) != 0 && gf_log(power_of_x(i)) == i,
        forall|v: u8| v != 0 ==> (#[trigger] gf_log(v)) < 255 && power_of_x(gf_log(v) as nat) == v,
{
    lemma_table_entries();
    lemma_power_matches_entry(255);
    assert forall|i: nat|
        i < 255 implies (#[trigger] power_of_x(i)) != 0 && gf_log(power_of_x(i)) == i by {
        lemma_power_matches_entry(i);
    }
    assert forall|v: u8|
        v != 0 implies (#[trigger] gf_log(v)) < 255 && power_of_x(gf_log(v) as nat) == v by {
        lemma_power_matches_entry(gf_log(v) as nat);
    }
}

/// The multiply-by-x step is linear over XOR.
pub proof fn lemma_xtimes_linear(a: u8, b: u8)
    ensures
        spec_xtimes(a ^ b) == spec_xtimes(a) ^ spec_xtimes(b),
{
    assert(spec_xtimes(a ^ b) == spec_xtimes(a) ^ spec_xtimes(b)) by (bit_vector);
}

/// Iterating the multiply-by-x step composes additively in the exponent.
pub proof fn lemma_xtimes_iter_add(m: nat, n: nat, y: u8)
    ensures
        xtimes_iter(m + n, y) == xtimes_iter(m, xtimes_iter(n, y)),
    decreases m,
{
    if m > 0 {
        lemma_xtimes_iter_add((m - 1) as nat, n, y);
        assert(xtimes_iter(m + n, y) == spec_xtimes(xtimes_iter((m + n - 1) as nat, y)));
    }
}

/// Iterating the multiply-by-x step is linear over XOR.
pub proof fn lemma_xtimes_iter_xor(n: nat, a: u8, b: u8)
    ensures
        xtimes_iter(n, a ^ b) == xtimes_iter(n, a) ^ xtimes_iter(n, b),
    decreases n,
{
    if n > 0 {
        lemma_xtimes_iter_xor((n - 1) as nat, a, b);
        lemma_xtimes_linear(xtimes_iter((n - 1) as nat, a), xtimes_iter((n - 1) as nat, b));
    }
}

/// Exponents of the generator can be reduced modulo 255.
pub proof fn lemma_power_reduce(s: nat)
    requires
        s < 510,
    ensures
        power_of_x((s % 255) as nat) == power_of_x(s),
{
    if s < 255 {
        lemma_small_mod(s, 255);
    } else {
        lemma_field_tables();
        lemma_xtimes_iter_add((s - 255) as nat, 255, 1);
        lemma_mod_multiples_vanish(1, s - 255, 255);
        lemma_small_mod((s - 255) as nat, 255);
        assert(xtimes_iter(255, 1) == power_of_x(255));
    }
}

/// Multiplying by a nonzero `a` is `log(a)` applications of the
/// multiply-by-x step.
pub proof fn lemma_mul_as_iter(a: u8, b: u8)
    requires
        a != 0,
        b != 0,
    ensures
        gf_mul(a, b) == xtimes_iter(gf_log(a) as nat, b),
{
    lemma_field_tables();
    let la = gf_log(a) as nat;
    let lb = gf_log(b) as nat;
    lemma_power_reduce(la + lb);
    lemma_xtimes_iter_add(la, lb, 1);
    assert(xtimes_iter(lb, 1) == power_of_x(lb));
}

/// The product of nonzero elements is nonzero, with the sum of the
/// logarithms (reduced modulo 255) as its logarithm.
pub proof fn lemma_mul_nonzero(a: u8, b: u8)
    requires
        a != 0,
        b != 0,
    ensures
        gf_mul(a, b) != 0,
        gf_log(gf_mul(a, b)) == (gf_log(a) + gf_log(b)) % 255,
{
    lemma_field_tables();
    lemma_mod_bound(gf_log(a) + gf_log(b), 255);
}

/// Repeated multiplication by a nonzero `a` lands on the generator raised
/// to `log(a) * n`, reduced modulo 255.
pub proof fn lemma_pow_closed_form(a: u8, n: nat)
    requires
        a != 0,
    ensures
        gf_pow(a, n) == power_of_x(((gf_log(a) * n) % 255) as nat),
    decreases n,
{
    lemma_field_tables();
    let la = gf_log(a) as int;
    if n == 0 {
        lemma_small_mod(0, 255);
    } else {
        lemma_pow_closed_form(a, (n - 1) as nat);
        lemma_mod_bound(la * (n - 1), 255);
        lemma_add_mod_noop_right(la, la * (n - 1), 255);
        assert(la + la * (n - 1) == la * n) by (nonlinear_arith)
            requires
                n >= 1,
        ;
    }
}

} // verus!
