//! Example payload type: a percentage, valid when it is at most one
//! hundred. Its equality and ordering are specified, so wrappers around it
//! compare with fully known meaning.

use vstd::prelude::*;
use crate::Validate;

verus! {

/// Why a [`Percent`] failed validation.
#[derive(Debug, Clone, Copy, PartialEq, Eq)]
pub enum InvalidPercent {
    /// The value exceeds one hundred.
    OverOneHundred,
}

/// A percentage, valid when it does not exceed one hundred. Validation is
/// self-contained, so the context is the unit value.
#[derive(Debug, Clone, Copy, Eq, Ord, Hash)]
pub struct Percent {
    /// The percentage value.
    pub value: u8,
}

impl Validate for Percent {
    type Context = ();

    type Error = InvalidPercent;

    open spec fn valid_spec(&self, ctx: ()) -> bool {
        self.value <= 100
    }

    open spec fn error_spec(&self, ctx: ()) -> InvalidPercent {
        InvalidPercent::OverOneHundred
    }

    fn is_valid(&self, ctx: &()) -> (r: Result<(), InvalidPercent>) {
        if self.value <= 100 {
            Ok(())
        } else {
            Err(InvalidPercent::OverOneHundred)
        }
    }
}

impl PartialEq for Percent {
    fn eq(&self, other: &Self) -> (r: bool) {
        self.value == other.value
    }
}

impl vstd::std_specs::cmp::PartialEqSpecImpl for Percent {
    open spec fn obeys_eq_spec() -> bool {
        true
    }

    open spec fn eq_spec(&self, other: &Self) -> bool {
        self.value == other.value
    }
}

impl PartialOrd for Percent {
    fn partial_cmp(&self, other: &Self) -> (r: Option<core::cmp::Ordering>) {
        if self.value < other.value {
            Some(core::cmp::Ordering::Less)
        } else if self.value == other.value {
            Some(core::cmp::Ordering::Equal)
        } else {
            Some(core::cmp::Ordering::Greater)
        }
    }
}

impl vstd::std_specs::cmp::PartialOrdSpecImpl for Percent {
    open spec fn obeys_partial_cmp_spec() -> bool {
        true
    }

    open spec fn partial_cmp_spec(&self, other: &Self) -> Option<core::cmp::Ordering> {
        if self.value < other.value {
            Some(core::cmp::Ordering::Less)
        } else if self.value == other.value {
            Some(core::cmp::Ordering::Equal)
        } else {
            Some(core::cmp::Ordering::Greater)
        }
    }
}

} // verus!
