//! Equality and order of values: by mantissa, and for values with a
//! run-time precision by mantissa first and number of decimal places
//! second.

use crate::big::{big_eq, big_lt};
use crate::c::ECs;
use crate::d::EDs;
use core::cmp::Ordering;
use vstd::prelude::*;
use vstd::std_specs::cmp::{PartialEqSpecImpl, PartialOrdSpecImpl};

verus! {

impl<const D: usize> PartialEqSpecImpl for ECs<D> {
    open spec fn obeys_eq_spec() -> bool {
        true
    }

    open spec fn eq_spec(&self, other: &Self) -> bool {
        self@ == other@
    }
}

impl<const D: usize> PartialEq for ECs<D> {
    fn eq(&self, other: &Self) -> (r: bool) {
        big_eq(&self.val, &other.val)
    }
}

impl<const D: usize> PartialOrdSpecImpl for ECs<D> {
    open spec fn obeys_partial_cmp_spec() -> bool {
        true
    }

    open spec fn partial_cmp_spec(&self, other: &Self) -> Option<Ordering> {
        if self@ < other@ {
            Some(Ordering::Less)
        } else if self@ == other@ {
            Some(Ordering::Equal)
        } else {
            Some(Ordering::Greater)
        }
    }
}

impl<const D: usize> PartialOrd for ECs<D> {
    fn partial_cmp(&self, other: &Self) -> (r: Option<Ordering>) {
        if big_lt(&self.val, &other.val) {
            Some(Ordering::Less)
        } else if big_eq(&self.val, &other.val) {
            Some(Ordering::Equal)
        } else {
            Some(Ordering::Greater)
        }
    }
}

impl PartialEqSpecImpl for EDs {
    open spec fn obeys_eq_spec() -> bool {
        true
    }

    open spec fn eq_spec(&self, other: &Self) -> bool {
        self@ == other@
    }
}

impl PartialEq for EDs {
    fn eq(&self, other: &Self) -> (r: bool) {
        big_eq(&self.val, &other.val) && self.decimals == other.decimals
    }
}

impl PartialOrdSpecImpl for EDs {
    open spec fn obeys_partial_cmp_spec() -> bool {
        true
    }

    open spec fn partial_cmp_spec(&self, other: &Self) -> Option<Ordering> {
        if self@.mantissa < other@.mantissa {
            Some(Ordering::Less)
        } else if self@.mantissa > other@.mantissa {
            Some(Ordering::Greater)
        } else if self@.decimals < other@.decimals {
            Some(Ordering::Less)
        } else if self@.decimals > other@.decimals {
            Some(Ordering::Greater)
        } else {
            Some(Ordering::Equal)
        }
    }
}

impl PartialOrd for EDs {
    fn partial_cmp(&self, other: &Self) -> (r: Option<Ordering>) {
        if big_lt(&self.val, &other.val) {
            Some(Ordering::Less)
        } else if big_lt(&other.val, &self.val) {
            Some(Ordering::Greater)
        } else if self.decimals < other.decimals {
            Some(Ordering::Less)
        } else if self.decimals > other.decimals {
            Some(Ordering::Greater)
        } else {
            Some(Ordering::Equal)
        }
    }
}

} // verus!
