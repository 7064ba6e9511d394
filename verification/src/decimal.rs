//! Fixed-point fractions, and amounts scaled by them.

use vstd::prelude::*;

verus! {

/// Number of atomic units that make up the value one.
pub open spec fn fractional() -> nat {
    1_000_000_000_000_000_000
}

/// A non-negative fixed-point number with eighteen decimal places, held as its
/// count of atomic units: the value is `atomics / 10^18`.
#[derive(Clone, Copy, Debug, PartialEq, Eq)]
pub struct Decimal {
    pub atomics: u128,
}

impl View for Decimal {
    type V = nat;

    open spec fn view(&self) -> nat {
        self.atomics as nat
    }
}

/// `amount` scaled by a fraction of `part` atomic units, rounded towards zero.
pub open spec fn mul_floor(amount: nat, part: nat) -> nat {
    (amount * part) / fractional()
}

impl Decimal {
    /// The fraction of `atomics` atomic units.
    pub fn raw(atomics: u128) -> (d: Decimal)
        ensures
            d@ == atomics,
    {
        Decimal { atomics }
    }

    /// The fraction `x / 100`.
    pub fn percent(x: u64) -> (d: Decimal)
        ensures
            d@ == x * 10_000_000_000_000_000,
    {
        let wide: u128 = x as u128;
        assert(wide * 10_000_000_000_000_000 <= u128::MAX) by (nonlinear_arith)
            requires
                wide <= u64::MAX,
        ;
        Decimal { atomics: wide * 10_000_000_000_000_000 }
    }

    pub fn zero() -> (d: Decimal)
        ensures
            d@ == 0,
    {
        Decimal { atomics: 0 }
    }

    pub fn one() -> (d: Decimal)
        ensures
            d@ == fractional(),
    {
        Decimal { atomics: 1_000_000_000_000_000_000 }
    }

    pub fn atomics(&self) -> (r: u128)
        ensures
            r == self@,
    {
        self.atomics
    }
}

/// Calls `Uint128::checked_mul_floor` of cosmwasm-std on `amount`, with the
/// `Decimal` of `part.atomics` atomic units as the fraction. Not proved here:
/// that function multiplies the amount by the atomic units in 256 bits,
/// divides by `10^18` rounding down, and fails exactly when the quotient is
/// more than 128 bits hold; its failure comes back as `None`.
#[verifier::external_body]
pub(crate) fn checked_mul_floor(amount: u128, part: Decimal) -> (r: Option<u128>)
    ensures
        mul_floor(amount as nat, part@) <= u128::MAX ==> r == Some(mul_floor(amount as nat, part@) as u128),
        mul_floor(amount as nat, part@) > u128::MAX ==> r is None,
{
    match cosmwasm_std::Uint128::new(amount).checked_mul_floor(cosmwasm_std::Decimal::raw(part.atomics)) {
        Ok(scaled) => Some(scaled.u128()),
        Err(_) => None,
    }
}

} // verus!
