use vstd::prelude::*;

verus! {

/// A decimal number in fixed-point form: the value is
/// `units + micros / 1_000_000`, with `units` the integral part rounded
/// towards negative infinity. Well-formed values keep `micros` below one
/// million; the ordering below is total either way.
#[derive(Clone, Copy, Debug, PartialEq, Eq, Structural)]
pub struct Dec {
    pub units: i64,
    pub micros: u32,
}

impl Dec {
    /// The decimal reading of a whole number.
    pub fn from_i64(n: i64) -> (r: Dec)
        ensures
            r == (Dec { units: n, micros: 0u32 }),
    {
        Dec { units: n, micros: 0 }
    }

    /// `self < other` in the numeric order on decimals.
    pub open spec fn spec_lt(self, other: Dec) -> bool {
        self.units < other.units || (self.units == other.units && self.micros < other.micros)
    }

    /// Compares two decimals numerically.
    pub fn is_lt(self, other: Dec) -> (r: bool)
        ensures
            r == self.spec_lt(other),
    {
        self.units < other.units || (self.units == other.units && self.micros < other.micros)
    }
}

} // verus!
