//! Type for elements of a finite field with 256 elements.

use vstd::prelude::*;
use crate::model::{gf_add, gf_div, gf_inv, gf_log, gf_mul, gf_pow, gf_sub, power_of_x};
use crate::lemmas::{lemma_field_tables, lemma_pow_closed_form};
use crate::tables::Tables;

verus! {

/// An element of the field: a byte read as the coefficient vector of a
/// polynomial of degree at most 7 over GF(2). Two elements are equal exactly
/// when their bytes are; values are immutable, every operation returns a new
/// element.
#[derive(Copy, Clone, PartialEq, Eq, Structural, Debug)]
pub struct Gf256 {
    pub poly: u8,
}

/// The sole failure a field operation can raise.
#[derive(Copy, Clone, PartialEq, Eq, Structural, Debug)]
pub enum Gf256Error {
    /// Division was invoked with a zero divisor.
    DivisionByZero,
}

impl Gf256 {
    /// returns the additive neutral element of the field
    #[inline]
    pub fn zero() -> (r: Gf256)
        ensures
            r.poly == 0,
    {
        Gf256 { poly: 0 }
    }

    /// returns the multiplicative neutral element of the field
    #[inline]
    pub fn one() -> (r: Gf256)
        ensures
            r.poly == 1,
    {
        Gf256 { poly: 1 }
    }

    #[inline]
    pub fn from_byte(b: u8) -> (r: Gf256)
        ensures
            r.poly == b,
    {
        Gf256 { poly: b }
    }

    #[inline]
    pub fn to_byte(&self) -> (r: u8)
        ensures
            r == self.poly,
    {
        self.poly
    }

    /// Find the logarithm of self in base x.
    /// In other words, find a value i such that x ^ i == self.
    /// Zero has no logarithm, so the result is absent for it.
    pub fn log(&self) -> (r: Option<u8>)
        ensures
            self.poly == 0 <==> r is None,
            self.poly != 0 ==> r == Some(gf_log(self.poly)),
    {
        if self.poly == 0 {
            None
        } else {
            let tabs = Tables::new();
            Some(tabs.log[self.poly as usize])
        }
    }

    /// Calculate x ^ power
    pub fn xexp(power: u8) -> (r: Gf256)
        ensures
            r.poly == power_of_x(power as nat),
    {
        let tabs = Tables::new();
        Gf256 { poly: tabs.exp[power as usize] }
    }

    /// Calculate self ^ power. Zero raised to any power is zero, the power
    /// 0 included: the field keeps that convention deliberately, in place
    /// of the usual reading of 0^0 as 1.
    pub fn exp(&self, power: u8) -> (r: Gf256)
        ensures
            self.poly == 0 ==> r.poly == 0,
            self.poly != 0 ==> r.poly == gf_pow(self.poly, power as nat),
    {
        match self.log() {
            None => Self::zero(),
            Some(i) => {
                proof {
                    lemma_field_tables();
                    lemma_pow_closed_form(self.poly, power as nat);
                }
                // Current value is x^i
                Self::xexp((((i as u16) * (power as u16)) % 255) as u8)
            },
        }
    }

    /// Find the inverse of self: a value y such that self * y == 1.
    /// Zero has no inverse, so the result is absent for it.
    pub fn inv(&self) -> (r: Option<Gf256>)
        ensures
            self.poly == 0 <==> r is None,
            self.poly != 0 ==> (r matches Some(w) && w.poly == gf_inv(self.poly)),
    {
        match self.log() {
            None => None,
            Some(l) => Some(Self::xexp(255 - l)),
        }
    }

    /// returns the sum: XOR of the two coefficient vectors
    #[inline]
    pub fn add(self, rhs: Gf256) -> (r: Gf256)
        ensures
            r.poly == gf_add(self.poly, rhs.poly),
    {
        Gf256::from_byte(self.poly ^ rhs.poly)
    }

    /// returns the difference, which coincides with the sum: the field has
    /// characteristic 2
    #[inline]
    pub fn sub(self, rhs: Gf256) -> (r: Gf256)
        ensures
            r.poly == gf_sub(self.poly, rhs.poly),
    {
        Gf256::from_byte(self.poly ^ rhs.poly)
    }

    /// returns the product; zero when either operand is zero
    pub fn mul(self, rhs: Gf256) -> (r: Gf256)
        ensures
            r.poly == gf_mul(self.poly, rhs.poly),
    {
        match (self.log(), rhs.log()) {
            (Some(l1), Some(l2)) => {
                let tmp = ((l1 as u16) + (l2 as u16)) % 255;
                Gf256::xexp(tmp as u8)
            },
            _ => Gf256 { poly: 0 },
        }
    }

    /// returns the quotient, or fails with DivisionByZero when the divisor
    /// is zero; dividing zero by anything nonzero gives zero
    pub fn div(self, rhs: Gf256) -> (r: Result<Gf256, Gf256Error>)
        ensures
            rhs.poly == 0 <==> r is Err,
            r is Err ==> r->Err_0 == Gf256Error::DivisionByZero,
            rhs.poly != 0 ==> (r matches Ok(q) && q.poly == gf_div(self.poly, rhs.poly)),
    {
        match rhs.log() {
            None => Err(Gf256Error::DivisionByZero),
            Some(l2) => match self.log() {
                None => Ok(Gf256::zero()),
                Some(l1) => {
                    let tmp = ((l1 as u16) + 255 - (l2 as u16)) % 255;
                    Ok(Gf256::xexp(tmp as u8))
                },
            },
        }
    }
}

} // verus!
