//! Fixed-point decimals that carry their number of decimal places with
//! them.

use crate::big::{
    big_clone, big_div, big_from_u64, big_is_zero, big_lt, big_mul, big_nat, big_rem, big_sqrt,
    big_to_string,
};
use crate::c::ECs;
use crate::error::DecimalError;
pub use crate::interchange::EDsCandid;
use crate::laws::law_rescale_identity;
use crate::model::{lemma_floor_sqrt_unique, Scaled};
use crate::scale::{base, lemma_pow10_positive, pow10, MAX_DECIMALS};
use core::ops::{Add, Div, Mul, Sub};
use num_bigint::BigUint;
use vstd::prelude::*;
use vstd::std_specs::convert::TryFromSpecImpl;

verus! {

/// A non-negative decimal number: the mantissa `val` stands for
/// `val / 10^decimals`.
///
/// Two values take part in one operation only where their `decimals` agree.
#[derive(Debug, Eq, Ord, Hash)]
pub struct EDs {
    pub val: BigUint,
    pub decimals: u8,
}

impl View for EDs {
    type V = Scaled;

    open spec fn view(&self) -> Scaled {
        Scaled { mantissa: big_nat(self.val), decimals: self.decimals as nat }
    }
}

impl EDs {
    /// The precision is one that the library supports.
    pub open spec fn wf(&self) -> bool {
        self.decimals <= MAX_DECIMALS
    }

    /// The value with the given mantissa and number of decimal places.
    pub fn new(val: BigUint, decimals: u8) -> (r: Self)
        requires
            decimals <= MAX_DECIMALS,
        ensures
            r.val == val,
            r.decimals == decimals,
            r.wf(),
    {
        Self { val, decimals }
    }

    /// The value with the given mantissa and number of decimal places, or
    /// `UnsupportedPrecision` where these are more than 31.
    pub fn try_new(val: BigUint, decimals: u8) -> (r: Result<Self, DecimalError>)
        ensures
            r is Ok <==> decimals <= MAX_DECIMALS,
            r matches Ok(v) ==> v.val == val && v.decimals == decimals,
            r matches Err(e) ==> e == DecimalError::UnsupportedPrecision,
    {
        if decimals > MAX_DECIMALS {
            Err(DecimalError::UnsupportedPrecision)
        } else {
            Ok(Self::new(val, decimals))
        }
    }

    /// The scale of `decimals` decimal places.
    pub fn base(decimals: u8) -> (r: BigUint)
        requires
            decimals <= MAX_DECIMALS,
        ensures
            big_nat(r) == pow10(decimals as nat),
    {
        base(decimals)
    }

    /// The fraction `num / den`, rounded down to `decimals` decimal places.
    fn ratio(num: u64, den: u64, decimals: u8) -> (r: Self)
        requires
            decimals <= MAX_DECIMALS,
            den > 0,
        ensures
            r.wf(),
            r@ == Scaled::ratio(num as nat, den as nat, decimals as nat),
    {
        let scaled = big_mul(&Self::base(decimals), &big_from_u64(num));
        Self::new(big_div(&scaled, &big_from_u64(den)), decimals)
    }

    /// Zero.
    pub fn zero(decimals: u8) -> (r: Self)
        requires
            decimals <= MAX_DECIMALS,
        ensures
            r.wf(),
            r@ == (Scaled { mantissa: 0, decimals: decimals as nat }),
    {
        Self::new(big_from_u64(0), decimals)
    }

    /// One: the mantissa is the scale itself.
    pub fn one(decimals: u8) -> (r: Self)
        requires
            decimals <= MAX_DECIMALS,
        ensures
            r.wf(),
            r@ == (Scaled { mantissa: pow10(decimals as nat), decimals: decimals as nat }),
    {
        Self { val: Self::base(decimals), decimals }
    }

    /// One tenth.
    pub fn f0_1(decimals: u8) -> (r: Self)
        requires
            decimals <= MAX_DECIMALS,
        ensures
            r.wf(),
            r@ == Scaled::ratio(1, 10, decimals as nat),
    {
        Self::ratio(1, 10, decimals)
    }

    /// One fifth.
    pub fn f0_2(decimals: u8) -> (r: Self)
        requires
            decimals <= MAX_DECIMALS,
        ensures
            r.wf(),
            r@ == Scaled::ratio(1, 5, decimals as nat),
    {
        Self::ratio(1, 5, decimals)
    }

    /// One quarter.
    pub fn f0_25(decimals: u8) -> (r: Self)
        requires
            decimals <= MAX_DECIMALS,
        ensures
            r.wf(),
            r@ == Scaled::ratio(1, 4, decimals as nat),
    {
        Self::ratio(1, 4, decimals)
    }

    /// Three tenths.
    pub fn f0_3(decimals: u8) -> (r: Self)
        requires
            decimals <= MAX_DECIMALS,
        ensures
            r.wf(),
            r@ == Scaled::ratio(3, 10, decimals as nat),
    {
        Self::ratio(3, 10, decimals)
    }

    /// One third, rounded down.
    pub fn f0_33(decimals: u8) -> (r: Self)
        requires
            decimals <= MAX_DECIMALS,
        ensures
            r.wf(),
            r@ == Scaled::ratio(1, 3, decimals as nat),
    {
        Self::ratio(1, 3, decimals)
    }

    /// Two fifths.
    pub fn f0_4(decimals: u8) -> (r: Self)
        requires
            decimals <= MAX_DECIMALS,
        ensures
            r.wf(),
            r@ == Scaled::ratio(2, 5, decimals as nat),
    {
        Self::ratio(2, 5, decimals)
    }

    /// One half.
    pub fn f0_5(decimals: u8) -> (r: Self)
        requires
            decimals <= MAX_DECIMALS,
        ensures
            r.wf(),
            r@ == Scaled::ratio(1, 2, decimals as nat),
    {
        Self::ratio(1, 2, decimals)
    }

    /// Three fifths.
    pub fn f0_6(decimals: u8) -> (r: Self)
        requires
            decimals <= MAX_DECIMALS,
        ensures
            r.wf(),
            r@ == Scaled::ratio(3, 5, decimals as nat),
    {
        Self::ratio(3, 5, decimals)
    }

    /// Two thirds, rounded down.
    pub fn f0_67(decimals: u8) -> (r: Self)
        requires
            decimals <= MAX_DECIMALS,
        ensures
            r.wf(),
            r@ == Scaled::ratio(2, 3, decimals as nat),
    {
        Self::ratio(2, 3, decimals)
    }

    /// Seven tenths.
    pub fn f0_7(decimals: u8) -> (r: Self)
        requires
            decimals <= MAX_DECIMALS,
        ensures
            r.wf(),
            r@ == Scaled::ratio(7, 10, decimals as nat),
    {
        Self::ratio(7, 10, decimals)
    }

    /// Three quarters.
    pub fn f0_75(decimals: u8) -> (r: Self)
        requires
            decimals <= MAX_DECIMALS,
        ensures
            r.wf(),
            r@ == Scaled::ratio(3, 4, decimals as nat),
    {
        Self::ratio(3, 4, decimals)
    }

    /// Four fifths.
    pub fn f0_8(decimals: u8) -> (r: Self)
        requires
            decimals <= MAX_DECIMALS,
        ensures
            r.wf(),
            r@ == Scaled::ratio(4, 5, decimals as nat),
    {
        Self::ratio(4, 5, decimals)
    }

    /// Nine tenths.
    pub fn f0_9(decimals: u8) -> (r: Self)
        requires
            decimals <= MAX_DECIMALS,
        ensures
            r.wf(),
            r@ == Scaled::ratio(9, 10, decimals as nat),
    {
        Self::ratio(9, 10, decimals)
    }

    /// Two.
    pub fn two(decimals: u8) -> (r: Self)
        requires
            decimals <= MAX_DECIMALS,
        ensures
            r.wf(),
            r@ == Scaled::ratio(2, 1, decimals as nat),
    {
        Self::ratio(2, 1, decimals)
    }

    /// The square root of the whole part of this value, rounded down. The
    /// fractional digits of the value are dropped before the root is taken,
    /// and the result has none.
    pub fn sqrt(&self) -> (r: Self)
        requires
            self.wf(),
        ensures
            r.wf(),
            r@ == self@.root(),
    {
        let base = Self::base(self.decimals);
        proof {
            lemma_pow10_positive(self.decimals as nat);
        }
        let whole = big_div(&self.val, &base);
        let sqrt_whole = big_sqrt(&whole);
        proof {
            lemma_floor_sqrt_unique(big_nat(sqrt_whole), big_nat(whole));
        }
        Self::new(big_mul(&sqrt_whole, &base), self.decimals)
    }

    /// The same value with a compile-time precision, which has to be the
    /// one that the value carries.
    pub fn to_const<const D: usize>(self) -> (r: ECs<D>)
        requires
            self.decimals == D,
        ensures
            r@ == self@.mantissa,
    {
        ECs::new(self.val)
    }

    /// The same value with a compile-time precision, or
    /// `RepresentationMismatch` where that is not the precision that the
    /// value carries.
    pub fn try_to_const<const D: usize>(self) -> (r: Result<ECs<D>, DecimalError>)
        ensures
            r is Ok <==> self.decimals == D,
            r matches Ok(v) ==> v@ == self@.mantissa,
            r matches Err(e) ==> e == DecimalError::RepresentationMismatch,
    {
        if self.decimals as usize != D {
            Err(DecimalError::RepresentationMismatch)
        } else {
            Ok(self.to_const())
        }
    }

    /// The same value with `new_decimals` decimal places. More places
    /// append zeros and lose nothing; fewer places drop the low digits.
    pub fn to_decimals(self, new_decimals: u8) -> (r: EDs)
        requires
            self.wf(),
            new_decimals <= MAX_DECIMALS,
        ensures
            r.wf(),
            r@ == self@.rescaled(new_decimals as nat),
    {
        if new_decimals == self.decimals {
            proof {
                law_rescale_identity(self@.mantissa, self@.decimals);
            }
            return self;
        }
        let (dif, mul): (u8, bool) = if self.decimals > new_decimals {
            (self.decimals - new_decimals, false)
        } else {
            (new_decimals - self.decimals, true)
        };
        let base = Self::base(dif);
        let val = if mul {
            big_mul(&self.val, &base)
        } else {
            proof {
                lemma_pow10_positive(dif as nat);
            }
            big_div(&self.val, &base)
        };
        EDs { val, decimals: new_decimals }
    }

    /// The text of this value: the whole part, a point, and the remainder
    /// written as a plain number. The remainder is not padded with zeros to
    /// the number of decimal places, so with two decimal places the
    /// mantissa 105 reads `1.5`.
    pub fn to_string(&self) -> (r: String)
        requires
            self.wf(),
        ensures
            r@ == self@.text(),
    {
        let base = Self::base(self.decimals);
        proof {
            lemma_pow10_positive(self.decimals as nat);
            reveal_strlit(".");
        }
        let mut text = big_to_string(&big_div(&self.val, &base));
        let rest = big_to_string(&big_rem(&self.val, &base));
        text.append(".");
        text.append(rest.as_str());
        proof {
            assert(text@ =~= self@.text());
        }
        text
    }

    /// The sum `self + rhs`; `PrecisionMismatch` where the two differ in
    /// their decimal places, else `UnsupportedPrecision` where these are
    /// more than 31.
    pub fn try_add(&self, rhs: &Self) -> (r: Result<Self, DecimalError>)
        ensures
            r is Ok <==> self.decimals == rhs.decimals && self.wf(),
            r matches Ok(v) ==> v.wf() && v@ == self@.plus(rhs@),
            r matches Err(e) ==> e == (if self.decimals != rhs.decimals {
                DecimalError::PrecisionMismatch
            } else {
                DecimalError::UnsupportedPrecision
            }),
    {
        if self.decimals != rhs.decimals {
            Err(DecimalError::PrecisionMismatch)
        } else if self.decimals > MAX_DECIMALS {
            Err(DecimalError::UnsupportedPrecision)
        } else {
            Ok(self.add(rhs))
        }
    }

    /// The difference `self - rhs`; `PrecisionMismatch` where the two differ
    /// in their decimal places, else `Underflow` where `rhs` is the larger
    /// value, else `UnsupportedPrecision` where the decimal places are more
    /// than 31.
    pub fn try_sub(&self, rhs: &Self) -> (r: Result<Self, DecimalError>)
        ensures
            r is Ok <==> self.decimals == rhs.decimals && rhs@.mantissa <= self@.mantissa
                && self.wf(),
            r matches Ok(v) ==> v.wf() && v@ == self@.minus(rhs@),
            r matches Err(e) ==> e == (if self.decimals != rhs.decimals {
                DecimalError::PrecisionMismatch
            } else if rhs@.mantissa > self@.mantissa {
                DecimalError::Underflow
            } else {
                DecimalError::UnsupportedPrecision
            }),
    {
        if self.decimals != rhs.decimals {
            Err(DecimalError::PrecisionMismatch)
        } else if big_lt(&self.val, &rhs.val) {
            Err(DecimalError::Underflow)
        } else if self.decimals > MAX_DECIMALS {
            Err(DecimalError::UnsupportedPrecision)
        } else {
            Ok(self.sub(rhs))
        }
    }

    /// The product `self * rhs`, rounded down; `PrecisionMismatch` where the
    /// two differ in their decimal places, else `UnsupportedPrecision` where
    /// these are more than 31.
    pub fn try_mul(&self, rhs: &Self) -> (r: Result<Self, DecimalError>)
        ensures
            r is Ok <==> self.decimals == rhs.decimals && self.wf(),
            r matches Ok(v) ==> v.wf() && v@ == self@.times(rhs@),
            r matches Err(e) ==> e == (if self.decimals != rhs.decimals {
                DecimalError::PrecisionMismatch
            } else {
                DecimalError::UnsupportedPrecision
            }),
    {
        if self.decimals != rhs.decimals {
            Err(DecimalError::PrecisionMismatch)
        } else if self.decimals > MAX_DECIMALS {
            Err(DecimalError::UnsupportedPrecision)
        } else {
            Ok(self.mul(rhs))
        }
    }

    /// The quotient `self / rhs`, rounded down; `PrecisionMismatch` where
    /// the two differ in their decimal places, else `UnsupportedPrecision`
    /// where these are more than 31, else `DivisionByZero` where `rhs` is
    /// zero.
    pub fn try_div(&self, rhs: &Self) -> (r: Result<Self, DecimalError>)
        ensures
            r is Ok <==> self.decimals == rhs.decimals && self.wf() && rhs@.mantissa > 0,
            r matches Ok(v) ==> v.wf() && v@ == self@.over(rhs@),
            r matches Err(e) ==> e == (if self.decimals != rhs.decimals {
                DecimalError::PrecisionMismatch
            } else if !self.wf() {
                DecimalError::UnsupportedPrecision
            } else {
                DecimalError::DivisionByZero
            }),
    {
        if self.decimals != rhs.decimals {
            Err(DecimalError::PrecisionMismatch)
        } else if self.decimals > MAX_DECIMALS {
            Err(DecimalError::UnsupportedPrecision)
        } else if big_is_zero(&rhs.val) {
            Err(DecimalError::DivisionByZero)
        } else {
            Ok(self.div(rhs))
        }
    }
}

impl Clone for EDs {
    fn clone(&self) -> (r: Self)
        ensures
            r@ == self@,
    {
        Self { val: big_clone(&self.val), decimals: self.decimals }
    }
}

impl Default for EDs {
    /// Zero with no decimal places.
    fn default() -> (r: Self)
        ensures
            r@ == (Scaled { mantissa: 0, decimals: 0 }),
    {
        Self::zero(0)
    }
}

impl TryFromSpecImpl<(u64, u8)> for EDs {
    open spec fn obeys_try_from_spec() -> bool {
        false
    }

    open spec fn try_from_spec(v: (u64, u8)) -> Result<Self, DecimalError> {
        arbitrary()
    }
}

impl TryFrom<(u64, u8)> for EDs {
    type Error = DecimalError;

    /// The value with mantissa `pair.0` and `pair.1` decimal places, or
    /// `UnsupportedPrecision` where these are more than 31.
    fn try_from(pair: (u64, u8)) -> (r: Result<Self, DecimalError>)
        ensures
            r is Ok <==> pair.1 <= MAX_DECIMALS,
            r matches Ok(v) ==> v@ == (Scaled { mantissa: pair.0 as nat, decimals: pair.1 as nat }),
            r matches Err(e) ==> e == DecimalError::UnsupportedPrecision,
    {
        Self::try_new(big_from_u64(pair.0), pair.1)
    }
}

} // verus!
