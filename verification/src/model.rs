//! What each operation computes, stated on mantissas as natural numbers.
//!
//! A fixed-point value with `d` decimal places and mantissa `m` stands for
//! the rational number `m / 10^d`. Every result that is not exact is rounded
//! toward zero, which for these non-negative numbers is rounding down.

use crate::big::decimal_digits;
use crate::scale::pow10;
use vstd::prelude::*;

verus! {

/// The mantissa of the product of two values with `d` decimal places. The
/// plain product of the mantissas has `2 * d` places; dividing by the scale
/// brings it back to `d`.
pub open spec fn mul_mantissas(a: nat, b: nat, d: nat) -> nat {
    a * b / pow10(d)
}

/// The mantissa of the quotient of two values with `d` decimal places. The
/// dividend is scaled up before the division, so that no digit is lost that
/// the result can hold.
pub open spec fn div_mantissas(a: nat, b: nat, d: nat) -> nat
    recommends
        b > 0,
{
    a * pow10(d) / b
}

/// The mantissa of the fraction `num / den` with `d` decimal places.
pub open spec fn fraction(num: nat, den: nat, d: nat) -> nat
    recommends
        den > 0,
{
    pow10(d) * num / den
}

/// The mantissa of the same value with `to` decimal places in place of
/// `from`: more places append zeros, fewer places drop the low digits.
pub open spec fn rescale(m: nat, from: nat, to: nat) -> nat {
    if to >= from {
        m * pow10((to - from) as nat)
    } else {
        m / pow10((from - to) as nat)
    }
}

/// The distance between two precisions.
pub open spec fn gap(a: nat, b: nat) -> nat {
    if a >= b {
        (a - b) as nat
    } else {
        (b - a) as nat
    }
}

/// `s` is the square root of `n`, rounded down.
pub open spec fn is_floor_sqrt(s: nat, n: nat) -> bool {
    s * s <= n < (s + 1) * (s + 1)
}

/// The square root of `n`, rounded down.
pub open spec fn floor_sqrt(n: nat) -> nat {
    choose|s: nat| is_floor_sqrt(s, n)
}

/// The mantissa of the square root as this library takes it: the root of
/// the whole part only, rounded down, with no fractional digits.
pub open spec fn sqrt_mantissa(m: nat, d: nat) -> nat {
    floor_sqrt(m / pow10(d)) * pow10(d)
}

/// The text of a value: the whole part, a point, and the remainder as a
/// plain number, which is not padded with zeros to `d` digits.
pub open spec fn render(m: nat, d: nat) -> Seq<char> {
    decimal_digits(m / pow10(d)) + seq!['.'] + decimal_digits(m % pow10(d))
}

/// What a value with a run-time precision stands for: a mantissa and a
/// number of decimal places.
pub ghost struct Scaled {
    pub mantissa: nat,
    pub decimals: nat,
}

impl Scaled {
    /// The fraction `num / den` with `decimals` decimal places, rounded
    /// down.
    pub open spec fn ratio(num: nat, den: nat, decimals: nat) -> Scaled
        recommends
            den > 0,
    {
        Scaled { mantissa: fraction(num, den, decimals), decimals }
    }

    /// The sum with a value of the same precision.
    pub open spec fn plus(self, other: Scaled) -> Scaled {
        Scaled { mantissa: self.mantissa + other.mantissa, decimals: self.decimals }
    }

    /// The difference from a value of the same precision that is not
    /// larger.
    pub open spec fn minus(self, other: Scaled) -> Scaled
        recommends
            other.mantissa <= self.mantissa,
    {
        Scaled { mantissa: (self.mantissa - other.mantissa) as nat, decimals: self.decimals }
    }

    /// The product with a value of the same precision, rounded down.
    pub open spec fn times(self, other: Scaled) -> Scaled {
        Scaled {
            mantissa: mul_mantissas(self.mantissa, other.mantissa, self.decimals),
            decimals: self.decimals,
        }
    }

    /// The quotient by a value of the same precision that is not zero,
    /// rounded down.
    pub open spec fn over(self, other: Scaled) -> Scaled
        recommends
            other.mantissa > 0,
    {
        Scaled {
            mantissa: div_mantissas(self.mantissa, other.mantissa, self.decimals),
            decimals: self.decimals,
        }
    }

    /// The product with a plain whole number, which has no decimal places:
    /// nothing is rescaled.
    pub open spec fn times_whole(self, n: nat) -> Scaled {
        Scaled { mantissa: self.mantissa * n, decimals: self.decimals }
    }

    /// The quotient by a plain whole number that is not zero, rounded down.
    pub open spec fn over_whole(self, n: nat) -> Scaled
        recommends
            n > 0,
    {
        Scaled { mantissa: self.mantissa / n, decimals: self.decimals }
    }

    /// The same value with `to` decimal places.
    pub open spec fn rescaled(self, to: nat) -> Scaled {
        Scaled { mantissa: rescale(self.mantissa, self.decimals, to), decimals: to }
    }

    /// The square root as this library takes it.
    pub open spec fn root(self) -> Scaled {
        Scaled { mantissa: sqrt_mantissa(self.mantissa, self.decimals), decimals: self.decimals }
    }

    /// The text of the value.
    pub open spec fn text(self) -> Seq<char> {
        render(self.mantissa, self.decimals)
    }
}

/// Only one number is the rounded-down square root of `n`.
pub proof fn lemma_floor_sqrt_unique(s: nat, n: nat)
    requires
        is_floor_sqrt(s, n),
    ensures
        floor_sqrt(n) == s,
{
    let t = floor_sqrt(n);
    assert(is_floor_sqrt(t, n));
    if t < s {
        assert((t + 1) * (t + 1) <= s * s) by (nonlinear_arith)
            requires
                t + 1 <= s,
        ;
    } else if s < t {
        assert((s + 1) * (s + 1) <= t * t) by (nonlinear_arith)
            requires
                s + 1 <= t,
        ;
    }
}

} // verus!
