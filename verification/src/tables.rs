//! Executable lookup tables for multiplication and division.
//!
//! The tables are derived from the fixed generator and reduction polynomial
//! by a bounded, deterministic computation: starting from 1, the exponent
//! table records 254 further multiply-by-x steps while the logarithm table
//! records each value's exponent, and the inverse table is read off the two.
//! Construction is cheap (256 iterations, no input), so a fresh, fully
//! populated table set is built for an operation that needs one.

use vstd::prelude::*;
use crate::model::{gf_inv, gf_log, power_of_x, spec_mask, spec_xtimes, POLY};
use crate::lemmas::lemma_field_tables;

verus! {

/// Replicates the least significant bit to every other bit.
#[inline]
pub(crate) fn mask(bit: u8) -> (r: u8)
    ensures
        r == spec_mask(bit),
{
    if bit & 1 == 1 {
        0xFF
    } else {
        0x00
    }
}

/// Multiplies a polynomial with x and returns the residual of the
/// polynomial division with POLY as divisor.
#[inline]
pub(crate) fn xtimes(poly: u8) -> (r: u8)
    ensures
        r == spec_xtimes(poly),
{
    (poly << 1) ^ (mask(poly >> 7) & POLY)
}

/// Tables used for multiplication and division.
pub(crate) struct Tables {
    pub exp: Vec<u8>,
    pub log: Vec<u8>,
    pub inv: Vec<u8>,
}

impl Tables {
    /// Fully populated tables: `exp` tabulates the powers of the generator
    /// (with entry 255 equal to entry 0), `log` holds the discrete
    /// logarithm of every nonzero byte, and `inv` its multiplicative
    /// inverse. Entry 0 of `log` and `inv` is unused.
    pub(crate) open spec fn wf(&self) -> bool {
        &&& self.exp@.len() == 256
        &&& (forall|i: int| 0 <= i < 256 ==> self.exp@[i] == power_of_x(i as nat))
        &&& self.log@.len() == 256
        &&& (forall|v: u8| v != 0 ==> self.log@[v as int] == gf_log(v))
        &&& self.inv@.len() == 256
        &&& (forall|v: u8| v != 0 ==> self.inv@[v as int] == gf_inv(v))
    }

    /// Builds the three tables from scratch.
    pub(crate) fn new() -> (t: Tables)
        ensures
            t.wf(),
    {
        let mut exp: Vec<u8> = Vec::new();
        let mut log: Vec<u8> = Vec::new();
        let mut k: usize = 0;
        while k < 256
            invariant
                exp@.len() == k,
                log@.len() == k,
                k <= 256,
            decreases 256 - k,
        {
            exp.push(0);
            log.push(0);
            k += 1;
        }
        let mut tmp: u8 = 1;
        let mut power: usize = 0;
        while power < 255
            invariant
                exp@.len() == 256,
                log@.len() == 256,
                power <= 255,
                tmp == power_of_x(power as nat),
                forall|j: int| 0 <= j < power ==> exp@[j] == power_of_x(j as nat),
                forall|j: nat| j < power ==> log@[#[trigger] power_of_x(j) as int] == j as u8,
            decreases 255 - power,
        {
            proof {
                lemma_field_tables();
            }
            exp[power] = tmp;
            log[tmp as usize] = power as u8;
            tmp = xtimes(tmp);
            power += 1;
            proof {
                assert(power_of_x(power as nat) == spec_xtimes(power_of_x((power - 1) as nat)));
            }
        }
        exp[255] = 1;
        proof {
            lemma_field_tables();
        }
        let mut inv: Vec<u8> = Vec::new();
        inv.push(0);
        let mut x: usize = 1;
        while x < 256
            invariant
                exp@.len() == 256,
                log@.len() == 256,
                inv@.len() == x,
                1 <= x <= 256,
                forall|i: int| 0 <= i < 256 ==> exp@[i] == power_of_x(i as nat),
                forall|v: u8| v != 0 ==> log@[v as int] == gf_log(v),
                forall|v: u8| 0 < v < x ==> inv@[v as int] == gf_inv(v),
            decreases 256 - x,
        {
            proof {
                lemma_field_tables();
            }
            let l = log[x];
            let nl = if l == 0 {
                0
            } else {
                255 - l
            };
            let i = exp[nl as usize];
            inv.push(i);
            x += 1;
        }
        Tables { exp, log, inv }
    }
}

} // verus!
