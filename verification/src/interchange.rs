//! The shapes under which values travel between processes.
//!
//! A value with a compile-time precision travels as a bare natural number:
//! both ends know the precision from the type. A value with a run-time
//! precision travels as a record of its mantissa and its number of decimal
//! places. Turning these shapes into bytes and back is the encoder's work;
//! this module maps values onto the shapes and back, and says what is kept.

use crate::big::{big_clone, big_nat};
use crate::c::ECs;
use crate::d::EDs;
use crate::error::DecimalError;
use crate::model::Scaled;
use crate::scale::MAX_DECIMALS;
use candid::Nat;
use vstd::prelude::*;
use vstd::std_specs::convert::FromSpecImpl;

verus! {

/// `candid::Nat`, a natural number on the wire: a `BigUint` in a wrapper.
#[verifier::external_type_specification]
pub struct ExNat(Nat);

/// The record under which an `EDs` travels.
pub struct EDsCandid {
    pub val: Nat,
    pub decimals: u8,
}

impl View for EDsCandid {
    type V = Scaled;

    open spec fn view(&self) -> Scaled {
        Scaled { mantissa: big_nat(self.val.0), decimals: self.decimals as nat }
    }
}

impl<const D: usize> ECs<D> {
    /// The natural number under which this value travels: its mantissa.
    pub fn to_nat(&self) -> (r: Nat)
        ensures
            big_nat(r.0) == self@,
    {
        Nat(big_clone(&self.val))
    }

    /// The value that travelled as `n`.
    pub fn from_nat(n: Nat) -> (r: Self)
        ensures
            r@ == big_nat(n.0),
    {
        Self::new(n.0)
    }
}

impl EDs {
    /// The record under which this value travels.
    pub fn to_candid(&self) -> (r: EDsCandid)
        ensures
            r@ == self@,
    {
        EDsCandid { val: Nat(big_clone(&self.val)), decimals: self.decimals }
    }

    /// The value that travelled as `record`.
    pub fn from_candid(record: EDsCandid) -> (r: Self)
        requires
            record.decimals <= MAX_DECIMALS,
        ensures
            r.wf(),
            r@ == record@,
    {
        Self::new(record.val.0, record.decimals)
    }

    /// The value that travelled as `record`, or `UnsupportedPrecision` where
    /// the record asks for more than 31 decimal places.
    pub fn try_from_candid(record: EDsCandid) -> (r: Result<Self, DecimalError>)
        ensures
            r is Ok <==> record.decimals <= MAX_DECIMALS,
            r matches Ok(v) ==> v.wf() && v@ == record@,
            r matches Err(e) ==> e == DecimalError::UnsupportedPrecision,
    {
        Self::try_new(record.val.0, record.decimals)
    }
}

impl FromSpecImpl<EDs> for Nat {
    open spec fn obeys_from_spec() -> bool {
        false
    }

    open spec fn from_spec(v: EDs) -> Self {
        arbitrary()
    }
}

impl From<EDs> for Nat {
    /// The mantissa alone; the number of decimal places is dropped.
    fn from(v: EDs) -> (r: Nat)
        ensures
            big_nat(r.0) == v@.mantissa,
    {
        Nat(v.val)
    }
}

impl FromSpecImpl<&EDs> for Nat {
    open spec fn obeys_from_spec() -> bool {
        false
    }

    open spec fn from_spec(v: &EDs) -> Self {
        arbitrary()
    }
}

impl From<&EDs> for Nat {
    /// The mantissa alone; the number of decimal places is dropped.
    fn from(v: &EDs) -> (r: Nat)
        ensures
            big_nat(r.0) == v@.mantissa,
    {
        Nat(big_clone(&v.val))
    }
}

} // verus!
