//! Fixed-point price types.
//!
//! Prices travel on the wire as unsigned integers scaled by a power of ten:
//! `Price4` holds units of 1/10_000, `Price8` units of 1/100_000_000.  The
//! wrapper keeps the raw integer; conversion to a decimal number is a
//! separate, explicit step, so arithmetic between the two scales can never
//! happen implicitly.

use vstd::prelude::*;

verus! {

/// Declaration of `rust_decimal`'s decimal type, which conversions return.
/// The value is opaque here; only the outside crate computes with it.
#[verifier::external_type_specification]
#[verifier::external_body]
pub struct ExDecimal(rust_decimal::Decimal);

/// A price to four decimal places: the raw integer counts 1/10_000 units.
#[derive(Debug, Clone, Copy, PartialEq, Eq, Structural)]
pub struct Price4(pub u32);

impl Price4 {
    /// The raw scaled integer.
    pub fn raw(self) -> (r: u32)
        ensures
            r == self.0,
    {
        self.0
    }

    /// Relies on `rust_decimal::Decimal::from_i128_with_scale`: builds the
    /// decimal with mantissa `self.0` and scale 4, i.e. `self.0 / 10_000`.
    /// It panics only for scales above 28 or mantissas beyond 96 bits, so a
    /// `u32` mantissa at scale 4 can never panic.
    #[verifier::external_body]
    pub fn to_decimal(self) -> rust_decimal::Decimal {
        rust_decimal::Decimal::from_i128_with_scale(self.0 as i128, 4)
    }
}

impl From<u32> for Price4 {
    fn from(v: u32) -> (r: Price4) {
        Price4(v)
    }
}

impl vstd::std_specs::convert::FromSpecImpl<u32> for Price4 {
    open spec fn obeys_from_spec() -> bool {
        true
    }

    open spec fn from_spec(v: u32) -> Price4 {
        Price4(v)
    }
}

/// A price to eight decimal places: the raw integer counts 1/100_000_000
/// units.
#[derive(Debug, Clone, Copy, PartialEq, Eq, Structural)]
pub struct Price8(pub u64);

impl Price8 {
    /// The raw scaled integer.
    pub fn raw(self) -> (r: u64)
        ensures
            r == self.0,
    {
        self.0
    }

    /// Relies on `rust_decimal::Decimal::from_i128_with_scale`: builds the
    /// decimal with mantissa `self.0` and scale 8, i.e.
    /// `self.0 / 100_000_000`.  It panics only for scales above 28 or
    /// mantissas beyond 96 bits, so a `u64` mantissa at scale 8 can never
    /// panic.
    #[verifier::external_body]
    pub fn to_decimal(self) -> rust_decimal::Decimal {
        rust_decimal::Decimal::from_i128_with_scale(self.0 as i128, 8)
    }
}

impl From<u64> for Price8 {
    fn from(v: u64) -> (r: Price8) {
        Price8(v)
    }
}

impl vstd::std_specs::convert::FromSpecImpl<u64> for Price8 {
    open spec fn obeys_from_spec() -> bool {
        true
    }

    open spec fn from_spec(v: u64) -> Price8 {
        Price8(v)
    }
}

} // verus!
