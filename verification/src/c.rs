//! Fixed-point decimals whose number of decimal places is part of the type.

use crate::big::{
    big_clone, big_div, big_from_bytes_le, big_from_u128, big_from_u64, big_is_zero, big_lt,
    big_mul, big_nat, big_rem, big_sqrt, big_to_bytes_le, big_to_string, le_bytes, le_value,
};
use crate::d::EDs;
use crate::error::DecimalError;
use crate::laws::law_rescale_identity;
use crate::model::{
    div_mantissas, fraction, gap, lemma_floor_sqrt_unique, render, rescale, sqrt_mantissa, Scaled,
};
use crate::scale::{base, lemma_pow10_positive, pow10, MAX_DECIMALS};
use core::ops::{Div, Sub};
use num_bigint::BigUint;
use vstd::prelude::*;
use vstd::std_specs::convert::FromSpecImpl;

verus! {

/// A non-negative decimal number with `DECIMALS` digits after the point:
/// the mantissa `val` stands for `val / 10^DECIMALS`.
///
/// Values of different precisions are different types; `to_decimals`
/// converts between them.
#[derive(Debug, Eq, Ord, Hash)]
pub struct ECs<const DECIMALS: usize> {
    pub val: BigUint,
}

/// Eight decimal places.
pub type E8s = ECs<8>;

impl<const D: usize> View for ECs<D> {
    type V = nat;

    /// The mantissa.
    open spec fn view(&self) -> nat {
        big_nat(self.val)
    }
}

impl<const D: usize> ECs<D> {
    /// The value with the given mantissa.
    pub fn new(val: BigUint) -> (r: Self)
        ensures
            r.val == val,
    {
        Self { val }
    }

    /// The scale of this precision, `10^D`.
    pub fn base() -> (r: BigUint)
        requires
            D <= MAX_DECIMALS,
        ensures
            big_nat(r) == pow10(D as nat),
    {
        base(D as u8)
    }

    /// The scale of `decimals` decimal places.
    pub fn base_d(decimals: u8) -> (r: BigUint)
        requires
            decimals <= MAX_DECIMALS,
        ensures
            big_nat(r) == pow10(decimals as nat),
    {
        base(decimals)
    }

    /// The fraction `num / den`, rounded down to `D` decimal places.
    fn ratio(num: u64, den: u64) -> (r: Self)
        requires
            D <= MAX_DECIMALS,
            den > 0,
        ensures
            r@ == fraction(num as nat, den as nat, D as nat),
    {
        let scaled = big_mul(&Self::base(), &big_from_u64(num));
        Self::new(big_div(&scaled, &big_from_u64(den)))
    }

    /// Zero.
    pub fn zero() -> (r: Self)
        ensures
            r@ == 0,
    {
        Self::new(big_from_u64(0))
    }

    /// One: the mantissa is the scale itself.
    pub fn one() -> (r: Self)
        requires
            D <= MAX_DECIMALS,
        ensures
            r@ == pow10(D as nat),
    {
        Self::new(Self::base())
    }

    /// One tenth.
    pub fn f0_1() -> (r: Self)
        requires
            D <= MAX_DECIMALS,
        ensures
            r@ == fraction(1, 10, D as nat),
    {
        Self::ratio(1, 10)
    }

    /// One fifth.
    pub fn f0_2() -> (r: Self)
        requires
            D <= MAX_DECIMALS,
        ensures
            r@ == fraction(1, 5, D as nat),
    {
        Self::ratio(1, 5)
    }

    /// One quarter.
    pub fn f0_25() -> (r: Self)
        requires
            D <= MAX_DECIMALS,
        ensures
            r@ == fraction(1, 4, D as nat),
    {
        Self::ratio(1, 4)
    }

    /// Three tenths.
    pub fn f0_3() -> (r: Self)
        requires
            D <= MAX_DECIMALS,
        ensures
            r@ == fraction(3, 10, D as nat),
    {
        Self::ratio(3, 10)
    }

    /// One third, rounded down.
    pub fn f0_33() -> (r: Self)
        requires
            D <= MAX_DECIMALS,
        ensures
            r@ == fraction(1, 3, D as nat),
    {
        Self::ratio(1, 3)
    }

    /// Two fifths.
    pub fn f0_4() -> (r: Self)
        requires
            D <= MAX_DECIMALS,
        ensures
            r@ == fraction(2, 5, D as nat),
    {
        Self::ratio(2, 5)
    }

    /// One half.
    pub fn f0_5() -> (r: Self)
        requires
            D <= MAX_DECIMALS,
        ensures
            r@ == fraction(1, 2, D as nat),
    {
        Self::ratio(1, 2)
    }

    /// Three fifths.
    pub fn f0_6() -> (r: Self)
        requires
            D <= MAX_DECIMALS,
        ensures
            r@ == fraction(3, 5, D as nat),
    {
        Self::ratio(3, 5)
    }

    /// Two thirds, rounded down.
    pub fn f0_67() -> (r: Self)
        requires
            D <= MAX_DECIMALS,
        ensures
            r@ == fraction(2, 3, D as nat),
    {
        Self::ratio(2, 3)
    }

    /// Seven tenths.
    pub fn f0_7() -> (r: Self)
        requires
            D <= MAX_DECIMALS,
        ensures
            r@ == fraction(7, 10, D as nat),
    {
        Self::ratio(7, 10)
    }

    /// Three quarters.
    pub fn f0_75() -> (r: Self)
        requires
            D <= MAX_DECIMALS,
        ensures
            r@ == fraction(3, 4, D as nat),
    {
        Self::ratio(3, 4)
    }

    /// Four fifths.
    pub fn f0_8() -> (r: Self)
        requires
            D <= MAX_DECIMALS,
        ensures
            r@ == fraction(4, 5, D as nat),
    {
        Self::ratio(4, 5)
    }

    /// Nine tenths.
    pub fn f0_9() -> (r: Self)
        requires
            D <= MAX_DECIMALS,
        ensures
            r@ == fraction(9, 10, D as nat),
    {
        Self::ratio(9, 10)
    }

    /// Two.
    pub fn two() -> (r: Self)
        requires
            D <= MAX_DECIMALS,
        ensures
            r@ == fraction(2, 1, D as nat),
    {
        Self::ratio(2, 1)
    }

    /// The square root of the whole part of this value, rounded down. The
    /// fractional digits of the value are dropped before the root is taken,
    /// and the result has none.
    pub fn sqrt(&self) -> (r: Self)
        requires
            D <= MAX_DECIMALS,
        ensures
            r@ == sqrt_mantissa(self@, D as nat),
    {
        let base = Self::base();
        proof {
            lemma_pow10_positive(D as nat);
        }
        let whole = big_div(&self.val, &base);
        let sqrt_whole = big_sqrt(&whole);
        proof {
            lemma_floor_sqrt_unique(big_nat(sqrt_whole), big_nat(whole));
        }
        Self::new(big_mul(&sqrt_whole, &base))
    }

    /// The same value with a run-time precision.
    pub fn to_dynamic(self) -> (r: EDs)
        requires
            D <= MAX_DECIMALS,
        ensures
            r.wf(),
            r@ == (Scaled { mantissa: self@, decimals: D as nat }),
    {
        EDs::new(self.val, D as u8)
    }

    /// The same value with `D1` decimal places. More places append zeros
    /// and lose nothing; fewer places drop the low digits.
    pub fn to_decimals<const D1: usize>(self) -> (r: ECs<D1>)
        requires
            gap(D as nat, D1 as nat) <= MAX_DECIMALS,
        ensures
            r@ == rescale(self@, D as nat, D1 as nat),
    {
        if D1 == D {
            proof {
                law_rescale_identity(self@, D as nat);
            }
            return ECs::<D1>::new(self.val);
        }
        let (dif, mul): (usize, bool) = if D > D1 {
            (D - D1, false)
        } else {
            (D1 - D, true)
        };
        let base = Self::base_d(dif as u8);
        if mul {
            ECs::<D1>::new(big_mul(&self.val, &base))
        } else {
            proof {
                lemma_pow10_positive(dif as nat);
            }
            ECs::<D1>::new(big_div(&self.val, &base))
        }
    }

    /// The text of this value: the whole part, a point, and the remainder
    /// written as a plain number. The remainder is not padded with zeros to
    /// `D` digits, so with two decimal places the mantissa 105 reads `1.5`.
    pub fn to_string(&self) -> (r: String)
        requires
            D <= MAX_DECIMALS,
        ensures
            r@ == render(self@, D as nat),
    {
        let base = Self::base();
        proof {
            lemma_pow10_positive(D as nat);
            reveal_strlit(".");
        }
        let mut text = big_to_string(&big_div(&self.val, &base));
        let rest = big_to_string(&big_rem(&self.val, &base));
        text.append(".");
        text.append(rest.as_str());
        proof {
            assert(text@ =~= render(self@, D as nat));
        }
        text
    }

    /// The bytes under which this value is stored: the mantissa, least
    /// significant byte first, with no high zero bytes; zero is one byte.
    pub fn to_bytes(&self) -> (r: Vec<u8>)
        ensures
            r@ == le_bytes(self@),
    {
        big_to_bytes_le(&self.val)
    }

    /// The value stored under the given bytes: they are read as a mantissa,
    /// least significant byte first. Every byte string stands for a value.
    pub fn from_bytes(bytes: &[u8]) -> (r: Self)
        ensures
            r@ == le_value(bytes@),
    {
        Self::new(big_from_bytes_le(bytes))
    }

    /// The difference `self - rhs`, or `Underflow` where `rhs` is the larger
    /// value.
    pub fn try_sub(&self, rhs: &Self) -> (r: Result<Self, DecimalError>)
        ensures
            r is Ok <==> rhs@ <= self@,
            r matches Ok(v) ==> v@ == self@ - rhs@,
            r matches Err(e) ==> e == DecimalError::Underflow,
    {
        if big_lt(&self.val, &rhs.val) {
            Err(DecimalError::Underflow)
        } else {
            Ok(self.sub(rhs))
        }
    }

    /// The quotient `self / rhs`, rounded down to `D` decimal places;
    /// `UnsupportedPrecision` where `D` is more than 31, else
    /// `DivisionByZero` where `rhs` is zero.
    pub fn try_div(&self, rhs: &Self) -> (r: Result<Self, DecimalError>)
        ensures
            r is Ok <==> D <= MAX_DECIMALS && rhs@ > 0,
            r matches Ok(v) ==> v@ == div_mantissas(self@, rhs@, D as nat),
            r matches Err(e) ==> e == (if D > MAX_DECIMALS {
                DecimalError::UnsupportedPrecision
            } else {
                DecimalError::DivisionByZero
            }),
    {
        if D > MAX_DECIMALS as usize {
            Err(DecimalError::UnsupportedPrecision)
        } else if big_is_zero(&rhs.val) {
            Err(DecimalError::DivisionByZero)
        } else {
            Ok(self.div(rhs))
        }
    }
}

impl<const D: usize> Clone for ECs<D> {
    fn clone(&self) -> (r: Self)
        ensures
            r@ == self@,
    {
        Self::new(big_clone(&self.val))
    }
}

impl<const D: usize> Default for ECs<D> {
    /// Zero.
    fn default() -> (r: Self)
        ensures
            r@ == 0,
    {
        Self::zero()
    }
}

impl<const D: usize> FromSpecImpl<u64> for ECs<D> {
    open spec fn obeys_from_spec() -> bool {
        false
    }

    open spec fn from_spec(v: u64) -> Self {
        arbitrary()
    }
}

impl<const D: usize> From<u64> for ECs<D> {
    /// The value whose mantissa is `value`.
    fn from(value: u64) -> (r: Self)
        ensures
            r@ == value,
    {
        Self::new(big_from_u64(value))
    }
}

impl<const D: usize> FromSpecImpl<u128> for ECs<D> {
    open spec fn obeys_from_spec() -> bool {
        false
    }

    open spec fn from_spec(v: u128) -> Self {
        arbitrary()
    }
}

impl<const D: usize> From<u128> for ECs<D> {
    /// The value whose mantissa is `value`.
    fn from(value: u128) -> (r: Self)
        ensures
            r@ == value,
    {
        Self::new(big_from_u128(value))
    }
}

} // verus!
