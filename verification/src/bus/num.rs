//! Numeric wrapper: on-chain integers render as decimal strings in base
//! units (`"1000000000000000000"`), never hex.

use vstd::prelude::*;
use crate::primitives::U256;
use crate::text::decimal;

verus! {

/// A 256-bit on-chain amount that renders in decimal.
#[derive(Clone, Copy, Debug)]
pub struct Dec(pub U256);

impl Dec {
    /// The integer this amount stands for.
    pub open spec fn value(self) -> nat {
        self.0.value()
    }

    /// The decimal digits of the amount, without leading zeros (its
    /// `Display` form).
    pub fn to_string(&self) -> (r: String)
        ensures
            r@ == decimal(self.value()),
    {
        self.0.to_decimal_string()
    }
}

/// Wraps a raw 256-bit value.
impl From<U256> for Dec {
    fn from(v: U256) -> (r: Dec) {
        Dec(v)
    }
}

impl vstd::std_specs::convert::FromSpecImpl<U256> for Dec {
    open spec fn obeys_from_spec() -> bool {
        true
    }

    open spec fn from_spec(v: U256) -> Dec {
        Dec(v)
    }
}

} // verus!
