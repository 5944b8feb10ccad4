//! Arithmetic on `EDs`, through the operators of `core::ops`.
//!
//! Two values meet in an operation only where they carry the same number of
//! decimal places; nothing is rescaled in silence. Each operator exists for
//! owned and borrowed operands alike. The contract of a call is the `ensures`
//! of the method; the precondition is its `*_req`. No operator promises a
//! structural equation on its result, which holds a big number that the
//! verifier cannot look into: `obeys_*_spec` is false throughout, and results
//! are described by their views.

use crate::big::{big_add, big_div, big_from_u64, big_mul, big_sub};
use crate::d::EDs;
use crate::scale::lemma_pow10_positive;
use core::ops::{Add, AddAssign, Div, DivAssign, Mul, MulAssign, Sub, SubAssign};
use vstd::prelude::*;
use vstd::std_specs::ops::{AddSpecImpl, DivSpecImpl, MulSpecImpl, SubSpecImpl};

verus! {

impl AddSpecImpl for &EDs {
    open spec fn obeys_add_spec() -> bool {
        false
    }

    open spec fn add_req(self, rhs: Self) -> bool {
        self.wf() && self.decimals == rhs.decimals
    }

    open spec fn add_spec(self, rhs: Self) -> EDs {
        arbitrary()
    }
}

impl Add for &EDs {
    type Output = EDs;

    /// The sum of two values of one precision.
    fn add(self, rhs: Self) -> (r: EDs)
        ensures
            r.wf(),
            r@ == self@.plus(rhs@),
    {
        EDs::new(big_add(&self.val, &rhs.val), self.decimals)
    }
}

impl AddSpecImpl for EDs {
    open spec fn obeys_add_spec() -> bool {
        false
    }

    open spec fn add_req(self, rhs: Self) -> bool {
        self.wf() && self.decimals == rhs.decimals
    }

    open spec fn add_spec(self, rhs: Self) -> EDs {
        arbitrary()
    }
}

impl Add for EDs {
    type Output = EDs;

    fn add(self, rhs: Self) -> (r: EDs)
        ensures
            r.wf(),
            r@ == self@.plus(rhs@),
    {
        (&self).add(&rhs)
    }
}

impl AddSpecImpl<&EDs> for EDs {
    open spec fn obeys_add_spec() -> bool {
        false
    }

    open spec fn add_req(self, rhs: &EDs) -> bool {
        self.wf() && self.decimals == rhs.decimals
    }

    open spec fn add_spec(self, rhs: &EDs) -> EDs {
        arbitrary()
    }
}

impl Add<&EDs> for EDs {
    type Output = EDs;

    fn add(self, rhs: &EDs) -> (r: EDs)
        ensures
            r.wf(),
            r@ == self@.plus(rhs@),
    {
        (&self).add(rhs)
    }
}

impl AddSpecImpl<EDs> for &EDs {
    open spec fn obeys_add_spec() -> bool {
        false
    }

    open spec fn add_req(self, rhs: EDs) -> bool {
        self.wf() && self.decimals == rhs.decimals
    }

    open spec fn add_spec(self, rhs: EDs) -> EDs {
        arbitrary()
    }
}

impl Add<EDs> for &EDs {
    type Output = EDs;

    fn add(self, rhs: EDs) -> (r: EDs)
        ensures
            r.wf(),
            r@ == self@.plus(rhs@),
    {
        self.add(&rhs)
    }
}

impl AddAssign<&EDs> for EDs {
    /// Adds `rhs`, a value of the same precision, to this value.
    fn add_assign(&mut self, rhs: &EDs)
        requires
            old(self).decimals == rhs.decimals,
        ensures
            final(self)@ == old(self)@.plus(rhs@),
    {
        self.val = big_add(&self.val, &rhs.val);
    }
}

impl AddAssign for EDs {
    fn add_assign(&mut self, rhs: Self)
        requires
            old(self).decimals == rhs.decimals,
        ensures
            final(self)@ == old(self)@.plus(rhs@),
    {
        self.add_assign(&rhs)
    }
}

impl SubSpecImpl for &EDs {
    open spec fn obeys_sub_spec() -> bool {
        false
    }

    open spec fn sub_req(self, rhs: Self) -> bool {
        self.wf() && self.decimals == rhs.decimals && rhs@.mantissa <= self@.mantissa
    }

    open spec fn sub_spec(self, rhs: Self) -> EDs {
        arbitrary()
    }
}

impl Sub for &EDs {
    type Output = EDs;

    /// The difference of two values of one precision. The type holds no
    /// negative value, so `rhs` must not be the larger one.
    fn sub(self, rhs: Self) -> (r: EDs)
        ensures
            r.wf(),
            r@ == self@.minus(rhs@),
    {
        EDs::new(big_sub(&self.val, &rhs.val), self.decimals)
    }
}

impl SubSpecImpl for EDs {
    open spec fn obeys_sub_spec() -> bool {
        false
    }

    open spec fn sub_req(self, rhs: Self) -> bool {
        self.wf() && self.decimals == rhs.decimals && rhs@.mantissa <= self@.mantissa
    }

    open spec fn sub_spec(self, rhs: Self) -> EDs {
        arbitrary()
    }
}

impl Sub for EDs {
    type Output = EDs;

    fn sub(self, rhs: Self) -> (r: EDs)
        ensures
            r.wf(),
            r@ == self@.minus(rhs@),
    {
        (&self).sub(&rhs)
    }
}

impl SubSpecImpl<&EDs> for EDs {
    open spec fn obeys_sub_spec() -> bool {
        false
    }

    open spec fn sub_req(self, rhs: &EDs) -> bool {
        self.wf() && self.decimals == rhs.decimals && rhs@.mantissa <= self@.mantissa
    }

    open spec fn sub_spec(self, rhs: &EDs) -> EDs {
        arbitrary()
    }
}

impl Sub<&EDs> for EDs {
    type Output = EDs;

    fn sub(self, rhs: &EDs) -> (r: EDs)
        ensures
            r.wf(),
            r@ == self@.minus(rhs@),
    {
        (&self).sub(rhs)
    }
}

impl SubSpecImpl<EDs> for &EDs {
    open spec fn obeys_sub_spec() -> bool {
        false
    }

    open spec fn sub_req(self, rhs: EDs) -> bool {
        self.wf() && self.decimals == rhs.decimals && rhs@.mantissa <= self@.mantissa
    }

    open spec fn sub_spec(self, rhs: EDs) -> EDs {
        arbitrary()
    }
}

impl Sub<EDs> for &EDs {
    type Output = EDs;

    fn sub(self, rhs: EDs) -> (r: EDs)
        ensures
            r.wf(),
            r@ == self@.minus(rhs@),
    {
        self.sub(&rhs)
    }
}

impl SubAssign<&EDs> for EDs {
    /// Takes `rhs`, a value of the same precision, from this value, which
    /// must not be the smaller one.
    fn sub_assign(&mut self, rhs: &EDs)
        requires
            old(self).decimals == rhs.decimals,
            rhs@.mantissa <= old(self)@.mantissa,
        ensures
            final(self)@ == old(self)@.minus(rhs@),
    {
        self.val = big_sub(&self.val, &rhs.val);
    }
}

impl SubAssign for EDs {
    fn sub_assign(&mut self, rhs: Self)
        requires
            old(self).decimals == rhs.decimals,
            rhs@.mantissa <= old(self)@.mantissa,
        ensures
            final(self)@ == old(self)@.minus(rhs@),
    {
        self.sub_assign(&rhs)
    }
}

impl MulSpecImpl for &EDs {
    open spec fn obeys_mul_spec() -> bool {
        false
    }

    open spec fn mul_req(self, rhs: Self) -> bool {
        self.wf() && self.decimals == rhs.decimals
    }

    open spec fn mul_spec(self, rhs: Self) -> EDs {
        arbitrary()
    }
}

impl Mul for &EDs {
    type Output = EDs;

    /// The product of two values of one precision, rounded down to that
    /// precision.
    fn mul(self, rhs: Self) -> (r: EDs)
        ensures
            r.wf(),
            r@ == self@.times(rhs@),
    {
        proof {
            lemma_pow10_positive(self.decimals as nat);
        }
        let product = big_mul(&self.val, &rhs.val);
        EDs::new(big_div(&product, &EDs::base(self.decimals)), self.decimals)
    }
}

impl MulSpecImpl for EDs {
    open spec fn obeys_mul_spec() -> bool {
        false
    }

    open spec fn mul_req(self, rhs: Self) -> bool {
        self.wf() && self.decimals == rhs.decimals
    }

    open spec fn mul_spec(self, rhs: Self) -> EDs {
        arbitrary()
    }
}

impl Mul for EDs {
    type Output = EDs;

    fn mul(self, rhs: Self) -> (r: EDs)
        ensures
            r.wf(),
            r@ == self@.times(rhs@),
    {
        (&self).mul(&rhs)
    }
}

impl MulSpecImpl<&EDs> for EDs {
    open spec fn obeys_mul_spec() -> bool {
        false
    }

    open spec fn mul_req(self, rhs: &EDs) -> bool {
        self.wf() && self.decimals == rhs.decimals
    }

    open spec fn mul_spec(self, rhs: &EDs) -> EDs {
        arbitrary()
    }
}

impl Mul<&EDs> for EDs {
    type Output = EDs;

    fn mul(self, rhs: &EDs) -> (r: EDs)
        ensures
            r.wf(),
            r@ == self@.times(rhs@),
    {
        (&self).mul(rhs)
    }
}

impl MulSpecImpl<EDs> for &EDs {
    open spec fn obeys_mul_spec() -> bool {
        false
    }

    open spec fn mul_req(self, rhs: EDs) -> bool {
        self.wf() && self.decimals == rhs.decimals
    }

    open spec fn mul_spec(self, rhs: EDs) -> EDs {
        arbitrary()
    }
}

impl Mul<EDs> for &EDs {
    type Output = EDs;

    fn mul(self, rhs: EDs) -> (r: EDs)
        ensures
            r.wf(),
            r@ == self@.times(rhs@),
    {
        self.mul(&rhs)
    }
}

impl MulSpecImpl<u64> for &EDs {
    open spec fn obeys_mul_spec() -> bool {
        false
    }

    open spec fn mul_req(self, rhs: u64) -> bool {
        self.wf()
    }

    open spec fn mul_spec(self, rhs: u64) -> EDs {
        arbitrary()
    }
}

impl Mul<u64> for &EDs {
    type Output = EDs;

    /// The product with a plain whole number: the mantissa is multiplied
    /// and nothing is rescaled.
    fn mul(self, rhs: u64) -> (r: EDs)
        ensures
            r.wf(),
            r@ == self@.times_whole(rhs as nat),
    {
        EDs::new(big_mul(&self.val, &big_from_u64(rhs)), self.decimals)
    }
}

impl MulSpecImpl<u64> for EDs {
    open spec fn obeys_mul_spec() -> bool {
        false
    }

    open spec fn mul_req(self, rhs: u64) -> bool {
        self.wf()
    }

    open spec fn mul_spec(self, rhs: u64) -> EDs {
        arbitrary()
    }
}

impl Mul<u64> for EDs {
    type Output = EDs;

    fn mul(self, rhs: u64) -> (r: EDs)
        ensures
            r.wf(),
            r@ == self@.times_whole(rhs as nat),
    {
        EDs::new(big_mul(&self.val, &big_from_u64(rhs)), self.decimals)
    }
}

impl MulAssign<&EDs> for EDs {
    /// Multiplies this value by `rhs`, a value of the same precision,
    /// rounding down.
    fn mul_assign(&mut self, rhs: &EDs)
        requires
            old(self).wf(),
            old(self).decimals == rhs.decimals,
        ensures
            final(self)@ == old(self)@.times(rhs@),
    {
        proof {
            lemma_pow10_positive(self.decimals as nat);
        }
        let product = big_mul(&self.val, &rhs.val);
        self.val = big_div(&product, &EDs::base(self.decimals));
    }
}

impl MulAssign for EDs {
    fn mul_assign(&mut self, rhs: Self)
        requires
            old(self).wf(),
            old(self).decimals == rhs.decimals,
        ensures
            final(self)@ == old(self)@.times(rhs@),
    {
        self.mul_assign(&rhs)
    }
}

impl MulAssign<u64> for EDs {
    /// Multiplies this value by a plain whole number.
    fn mul_assign(&mut self, rhs: u64)
        ensures
            final(self)@ == old(self)@.times_whole(rhs as nat),
    {
        self.val = big_mul(&self.val, &big_from_u64(rhs));
    }
}

impl DivSpecImpl for &EDs {
    open spec fn obeys_div_spec() -> bool {
        false
    }

    open spec fn div_req(self, rhs: Self) -> bool {
        self.wf() && self.decimals == rhs.decimals && rhs@.mantissa > 0
    }

    open spec fn div_spec(self, rhs: Self) -> EDs {
        arbitrary()
    }
}

impl Div for &EDs {
    type Output = EDs;

    /// The quotient of two values of one precision, rounded down to that
    /// precision. The dividend is scaled up first; `rhs` must not be zero.
    fn div(self, rhs: Self) -> (r: EDs)
        ensures
            r.wf(),
            r@ == self@.over(rhs@),
    {
        let scaled = big_mul(&self.val, &EDs::base(self.decimals));
        EDs::new(big_div(&scaled, &rhs.val), self.decimals)
    }
}

impl DivSpecImpl for EDs {
    open spec fn obeys_div_spec() -> bool {
        false
    }

    open spec fn div_req(self, rhs: Self) -> bool {
        self.wf() && self.decimals == rhs.decimals && rhs@.mantissa > 0
    }

    open spec fn div_spec(self, rhs: Self) -> EDs {
        arbitrary()
    }
}

impl Div for EDs {
    type Output = EDs;

    fn div(self, rhs: Self) -> (r: EDs)
        ensures
            r.wf(),
            r@ == self@.over(rhs@),
    {
        (&self).div(&rhs)
    }
}

impl DivSpecImpl<&EDs> for EDs {
    open spec fn obeys_div_spec() -> bool {
        false
    }

    open spec fn div_req(self, rhs: &EDs) -> bool {
        self.wf() && self.decimals == rhs.decimals && rhs@.mantissa > 0
    }

    open spec fn div_spec(self, rhs: &EDs) -> EDs {
        arbitrary()
    }
}

impl Div<&EDs> for EDs {
    type Output = EDs;

    fn div(self, rhs: &EDs) -> (r: EDs)
        ensures
            r.wf(),
            r@ == self@.over(rhs@),
    {
        (&self).div(rhs)
    }
}

impl DivSpecImpl<EDs> for &EDs {
    open spec fn obeys_div_spec() -> bool {
        false
    }

    open spec fn div_req(self, rhs: EDs) -> bool {
        self.wf() && self.decimals == rhs.decimals && rhs@.mantissa > 0
    }

    open spec fn div_spec(self, rhs: EDs) -> EDs {
        arbitrary()
    }
}

impl Div<EDs> for &EDs {
    type Output = EDs;

    fn div(self, rhs: EDs) -> (r: EDs)
        ensures
            r.wf(),
            r@ == self@.over(rhs@),
    {
        self.div(&rhs)
    }
}

impl DivSpecImpl<u64> for &EDs {
    open spec fn obeys_div_spec() -> bool {
        false
    }

    open spec fn div_req(self, rhs: u64) -> bool {
        self.wf() && rhs > 0
    }

    open spec fn div_spec(self, rhs: u64) -> EDs {
        arbitrary()
    }
}

impl Div<u64> for &EDs {
    type Output = EDs;

    /// The quotient by a plain whole number that is not zero: the mantissa
    /// is divided, rounding down, and nothing is rescaled.
    fn div(self, rhs: u64) -> (r: EDs)
        ensures
            r.wf(),
            r@ == self@.over_whole(rhs as nat),
    {
        EDs::new(big_div(&self.val, &big_from_u64(rhs)), self.decimals)
    }
}

impl DivSpecImpl<u64> for EDs {
    open spec fn obeys_div_spec() -> bool {
        false
    }

    open spec fn div_req(self, rhs: u64) -> bool {
        self.wf() && rhs > 0
    }

    open spec fn div_spec(self, rhs: u64) -> EDs {
        arbitrary()
    }
}

impl Div<u64> for EDs {
    type Output = EDs;

    fn div(self, rhs: u64) -> (r: EDs)
        ensures
            r.wf(),
            r@ == self@.over_whole(rhs as nat),
    {
        EDs::new(big_div(&self.val, &big_from_u64(rhs)), self.decimals)
    }
}

impl DivAssign<&EDs> for EDs {
    /// Divides this value by `rhs`, a value of the same precision that is
    /// not zero, rounding down.
    fn div_assign(&mut self, rhs: &EDs)
        requires
            old(self).wf(),
            old(self).decimals == rhs.decimals,
            rhs@.mantissa > 0,
        ensures
            final(self)@ == old(self)@.over(rhs@),
    {
        let scaled = big_mul(&self.val, &EDs::base(self.decimals));
        self.val = big_div(&scaled, &rhs.val);
    }
}

impl DivAssign for EDs {
    fn div_assign(&mut self, rhs: Self)
        requires
            old(self).wf(),
            old(self).decimals == rhs.decimals,
            rhs@.mantissa > 0,
        ensures
            final(self)@ == old(self)@.over(rhs@),
    {
        self.div_assign(&rhs)
    }
}

impl DivAssign<u64> for EDs {
    /// Divides this value by a plain whole number that is not zero,
    /// rounding down.
    fn div_assign(&mut self, rhs: u64)
        requires
            rhs > 0,
        ensures
            final(self)@ == old(self)@.over_whole(rhs as nat),
    {
        self.val = big_div(&self.val, &big_from_u64(rhs));
    }
}

} // verus!
