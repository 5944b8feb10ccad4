//! Arithmetic on `ECs`, through the operators of `core::ops`.
//!
//! Each operator exists for owned and borrowed operands alike. The contract
//! of a call is the `ensures` of the method; the precondition is its `*_req`.
//! No operator promises a structural equation on its result, which holds a
//! big number that the verifier cannot look into: `obeys_*_spec` is false
//! throughout, and results are described by their views.

use crate::big::{big_add, big_div, big_mul, big_sub};
use crate::c::ECs;
use crate::model::{div_mantissas, mul_mantissas};
use crate::scale::{lemma_pow10_positive, MAX_DECIMALS};
use core::ops::{Add, AddAssign, Div, DivAssign, Mul, MulAssign, Sub, SubAssign};
use vstd::prelude::*;
use vstd::std_specs::ops::{AddSpecImpl, DivSpecImpl, MulSpecImpl, SubSpecImpl};

verus! {

impl<const D: usize> AddSpecImpl for &ECs<D> {
    open spec fn obeys_add_spec() -> bool {
        false
    }

    open spec fn add_req(self, rhs: Self) -> bool {
        true
    }

    open spec fn add_spec(self, rhs: Self) -> ECs<D> {
        arbitrary()
    }
}

impl<const D: usize> Add for &ECs<D> {
    type Output = ECs<D>;

    /// The sum.
    fn add(self, rhs: Self) -> (r: ECs<D>)
        ensures
            r@ == self@ + rhs@,
    {
        ECs::new(big_add(&self.val, &rhs.val))
    }
}

impl<const D: usize> AddSpecImpl for ECs<D> {
    open spec fn obeys_add_spec() -> bool {
        false
    }

    open spec fn add_req(self, rhs: Self) -> bool {
        true
    }

    open spec fn add_spec(self, rhs: Self) -> ECs<D> {
        arbitrary()
    }
}

impl<const D: usize> Add for ECs<D> {
    type Output = ECs<D>;

    fn add(self, rhs: Self) -> (r: ECs<D>)
        ensures
            r@ == self@ + rhs@,
    {
        (&self).add(&rhs)
    }
}

impl<const D: usize> AddSpecImpl<&ECs<D>> for ECs<D> {
    open spec fn obeys_add_spec() -> bool {
        false
    }

    open spec fn add_req(self, rhs: &ECs<D>) -> bool {
        true
    }

    open spec fn add_spec(self, rhs: &ECs<D>) -> ECs<D> {
        arbitrary()
    }
}

impl<const D: usize> Add<&ECs<D>> for ECs<D> {
    type Output = ECs<D>;

    fn add(self, rhs: &ECs<D>) -> (r: ECs<D>)
        ensures
            r@ == self@ + rhs@,
    {
        (&self).add(rhs)
    }
}

impl<const D: usize> AddSpecImpl<ECs<D>> for &ECs<D> {
    open spec fn obeys_add_spec() -> bool {
        false
    }

    open spec fn add_req(self, rhs: ECs<D>) -> bool {
        true
    }

    open spec fn add_spec(self, rhs: ECs<D>) -> ECs<D> {
        arbitrary()
    }
}

impl<const D: usize> Add<ECs<D>> for &ECs<D> {
    type Output = ECs<D>;

    fn add(self, rhs: ECs<D>) -> (r: ECs<D>)
        ensures
            r@ == self@ + rhs@,
    {
        self.add(&rhs)
    }
}

impl<const D: usize> AddAssign<&ECs<D>> for ECs<D> {
    /// Adds `rhs` to this value.
    fn add_assign(&mut self, rhs: &ECs<D>)
        ensures
            final(self)@ == old(self)@ + rhs@,
    {
        self.val = big_add(&self.val, &rhs.val);
    }
}

impl<const D: usize> AddAssign for ECs<D> {
    fn add_assign(&mut self, rhs: Self)
        ensures
            final(self)@ == old(self)@ + rhs@,
    {
        self.add_assign(&rhs)
    }
}

impl<const D: usize> SubSpecImpl for &ECs<D> {
    open spec fn obeys_sub_spec() -> bool {
        false
    }

    open spec fn sub_req(self, rhs: Self) -> bool {
        rhs@ <= self@
    }

    open spec fn sub_spec(self, rhs: Self) -> ECs<D> {
        arbitrary()
    }
}

impl<const D: usize> Sub for &ECs<D> {
    type Output = ECs<D>;

    /// The difference. The type holds no negative value, so `rhs` must not be
    /// the larger one.
    fn sub(self, rhs: Self) -> (r: ECs<D>)
        ensures
            r@ == self@ - rhs@,
    {
        ECs::new(big_sub(&self.val, &rhs.val))
    }
}

impl<const D: usize> SubSpecImpl for ECs<D> {
    open spec fn obeys_sub_spec() -> bool {
        false
    }

    open spec fn sub_req(self, rhs: Self) -> bool {
        rhs@ <= self@
    }

    open spec fn sub_spec(self, rhs: Self) -> ECs<D> {
        arbitrary()
    }
}

impl<const D: usize> Sub for ECs<D> {
    type Output = ECs<D>;

    fn sub(self, rhs: Self) -> (r: ECs<D>)
        ensures
            r@ == self@ - rhs@,
    {
        (&self).sub(&rhs)
    }
}

impl<const D: usize> SubSpecImpl<&ECs<D>> for ECs<D> {
    open spec fn obeys_sub_spec() -> bool {
        false
    }

    open spec fn sub_req(self, rhs: &ECs<D>) -> bool {
        rhs@ <= self@
    }

    open spec fn sub_spec(self, rhs: &ECs<D>) -> ECs<D> {
        arbitrary()
    }
}

impl<const D: usize> Sub<&ECs<D>> for ECs<D> {
    type Output = ECs<D>;

    fn sub(self, rhs: &ECs<D>) -> (r: ECs<D>)
        ensures
            r@ == self@ - rhs@,
    {
        (&self).sub(rhs)
    }
}

impl<const D: usize> SubSpecImpl<ECs<D>> for &ECs<D> {
    open spec fn obeys_sub_spec() -> bool {
        false
    }

    open spec fn sub_req(self, rhs: ECs<D>) -> bool {
        rhs@ <= self@
    }

    open spec fn sub_spec(self, rhs: ECs<D>) -> ECs<D> {
        arbitrary()
    }
}

impl<const D: usize> Sub<ECs<D>> for &ECs<D> {
    type Output = ECs<D>;

    fn sub(self, rhs: ECs<D>) -> (r: ECs<D>)
        ensures
            r@ == self@ - rhs@,
    {
        self.sub(&rhs)
    }
}

impl<const D: usize> SubAssign<&ECs<D>> for ECs<D> {
    /// Takes `rhs` from this value, which must not be the smaller one.
    fn sub_assign(&mut self, rhs: &ECs<D>)
        requires
            rhs@ <= old(self)@,
        ensures
            final(self)@ == old(self)@ - rhs@,
    {
        self.val = big_sub(&self.val, &rhs.val);
    }
}

impl<const D: usize> SubAssign for ECs<D> {
    fn sub_assign(&mut self, rhs: Self)
        requires
            rhs@ <= old(self)@,
        ensures
            final(self)@ == old(self)@ - rhs@,
    {
        self.sub_assign(&rhs)
    }
}

impl<const D: usize> MulSpecImpl for &ECs<D> {
    open spec fn obeys_mul_spec() -> bool {
        false
    }

    open spec fn mul_req(self, rhs: Self) -> bool {
        D <= MAX_DECIMALS
    }

    open spec fn mul_spec(self, rhs: Self) -> ECs<D> {
        arbitrary()
    }
}

impl<const D: usize> Mul for &ECs<D> {
    type Output = ECs<D>;

    /// The product, rounded down to `D` decimal places.
    fn mul(self, rhs: Self) -> (r: ECs<D>)
        ensures
            r@ == mul_mantissas(self@, rhs@, D as nat),
    {
        proof {
            lemma_pow10_positive(D as nat);
        }
        let product = big_mul(&self.val, &rhs.val);
        ECs::new(big_div(&product, &ECs::<D>::base()))
    }
}

impl<const D: usize> MulSpecImpl for ECs<D> {
    open spec fn obeys_mul_spec() -> bool {
        false
    }

    open spec fn mul_req(self, rhs: Self) -> bool {
        D <= MAX_DECIMALS
    }

    open spec fn mul_spec(self, rhs: Self) -> ECs<D> {
        arbitrary()
    }
}

impl<const D: usize> Mul for ECs<D> {
    type Output = ECs<D>;

    fn mul(self, rhs: Self) -> (r: ECs<D>)
        ensures
            r@ == mul_mantissas(self@, rhs@, D as nat),
    {
        (&self).mul(&rhs)
    }
}

impl<const D: usize> MulSpecImpl<&ECs<D>> for ECs<D> {
    open spec fn obeys_mul_spec() -> bool {
        false
    }

    open spec fn mul_req(self, rhs: &ECs<D>) -> bool {
        D <= MAX_DECIMALS
    }

    open spec fn mul_spec(self, rhs: &ECs<D>) -> ECs<D> {
        arbitrary()
    }
}

impl<const D: usize> Mul<&ECs<D>> for ECs<D> {
    type Output = ECs<D>;

    fn mul(self, rhs: &ECs<D>) -> (r: ECs<D>)
        ensures
            r@ == mul_mantissas(self@, rhs@, D as nat),
    {
        (&self).mul(rhs)
    }
}

impl<const D: usize> MulSpecImpl<ECs<D>> for &ECs<D> {
    open spec fn obeys_mul_spec() -> bool {
        false
    }

    open spec fn mul_req(self, rhs: ECs<D>) -> bool {
        D <= MAX_DECIMALS
    }

    open spec fn mul_spec(self, rhs: ECs<D>) -> ECs<D> {
        arbitrary()
    }
}

impl<const D: usize> Mul<ECs<D>> for &ECs<D> {
    type Output = ECs<D>;

    fn mul(self, rhs: ECs<D>) -> (r: ECs<D>)
        ensures
            r@ == mul_mantissas(self@, rhs@, D as nat),
    {
        self.mul(&rhs)
    }
}

impl<const D: usize> MulAssign<&ECs<D>> for ECs<D> {
    /// Multiplies this value by `rhs`, rounding down to `D` decimal places.
    fn mul_assign(&mut self, rhs: &ECs<D>)
        requires
            D <= MAX_DECIMALS,
        ensures
            final(self)@ == mul_mantissas(old(self)@, rhs@, D as nat),
    {
        proof {
            lemma_pow10_positive(D as nat);
        }
        let product = big_mul(&self.val, &rhs.val);
        self.val = big_div(&product, &ECs::<D>::base());
    }
}

impl<const D: usize> MulAssign for ECs<D> {
    fn mul_assign(&mut self, rhs: Self)
        requires
            D <= MAX_DECIMALS,
        ensures
            final(self)@ == mul_mantissas(old(self)@, rhs@, D as nat),
    {
        self.mul_assign(&rhs)
    }
}

impl<const D: usize> DivSpecImpl for &ECs<D> {
    open spec fn obeys_div_spec() -> bool {
        false
    }

    open spec fn div_req(self, rhs: Self) -> bool {
        D <= MAX_DECIMALS && rhs@ > 0
    }

    open spec fn div_spec(self, rhs: Self) -> ECs<D> {
        arbitrary()
    }
}

impl<const D: usize> Div for &ECs<D> {
    type Output = ECs<D>;

    /// The quotient, rounded down to `D` decimal places. The dividend is
    /// scaled up first; `rhs` must not be zero.
    fn div(self, rhs: Self) -> (r: ECs<D>)
        ensures
            r@ == div_mantissas(self@, rhs@, D as nat),
    {
        let scaled = big_mul(&self.val, &ECs::<D>::base());
        ECs::new(big_div(&scaled, &rhs.val))
    }
}

impl<const D: usize> DivSpecImpl for ECs<D> {
    open spec fn obeys_div_spec() -> bool {
        false
    }

    open spec fn div_req(self, rhs: Self) -> bool {
        D <= MAX_DECIMALS && rhs@ > 0
    }

    open spec fn div_spec(self, rhs: Self) -> ECs<D> {
        arbitrary()
    }
}

impl<const D: usize> Div for ECs<D> {
    type Output = ECs<D>;

    fn div(self, rhs: Self) -> (r: ECs<D>)
        ensures
            r@ == div_mantissas(self@, rhs@, D as nat),
    {
        (&self).div(&rhs)
    }
}

impl<const D: usize> DivSpecImpl<&ECs<D>> for ECs<D> {
    open spec fn obeys_div_spec() -> bool {
        false
    }

    open spec fn div_req(self, rhs: &ECs<D>) -> bool {
        D <= MAX_DECIMALS && rhs@ > 0
    }

    open spec fn div_spec(self, rhs: &ECs<D>) -> ECs<D> {
        arbitrary()
    }
}

impl<const D: usize> Div<&ECs<D>> for ECs<D> {
    type Output = ECs<D>;

    fn div(self, rhs: &ECs<D>) -> (r: ECs<D>)
        ensures
            r@ == div_mantissas(self@, rhs@, D as nat),
    {
        (&self).div(rhs)
    }
}

impl<const D: usize> DivSpecImpl<ECs<D>> for &ECs<D> {
    open spec fn obeys_div_spec() -> bool {
        false
    }

    open spec fn div_req(self, rhs: ECs<D>) -> bool {
        D <= MAX_DECIMALS && rhs@ > 0
    }

    open spec fn div_spec(self, rhs: ECs<D>) -> ECs<D> {
        arbitrary()
    }
}

impl<const D: usize> Div<ECs<D>> for &ECs<D> {
    type Output = ECs<D>;

    fn div(self, rhs: ECs<D>) -> (r: ECs<D>)
        ensures
            r@ == div_mantissas(self@, rhs@, D as nat),
    {
        self.div(&rhs)
    }
}

impl<const D: usize> DivAssign<&ECs<D>> for ECs<D> {
    /// Divides this value by `rhs`, which must not be zero, rounding down to
    /// `D` decimal places.
    fn div_assign(&mut self, rhs: &ECs<D>)
        requires
            D <= MAX_DECIMALS,
            rhs@ > 0,
        ensures
            final(self)@ == div_mantissas(old(self)@, rhs@, D as nat),
    {
        let scaled = big_mul(&self.val, &ECs::<D>::base());
        self.val = big_div(&scaled, &rhs.val);
    }
}

impl<const D: usize> DivAssign for ECs<D> {
    fn div_assign(&mut self, rhs: Self)
        requires
            D <= MAX_DECIMALS,
            rhs@ > 0,
        ensures
            final(self)@ == div_mantissas(old(self)@, rhs@, D as nat),
    {
        self.div_assign(&rhs)
    }
}

} // verus!
