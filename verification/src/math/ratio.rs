use vstd::prelude::*;

verus! {

/// An exact quotient of two integers.
///
/// Coordinates and colour channels are kept as ratios so that no rounding
/// happens before a value is handed to the graphics device. A ratio whose
/// denominator is zero stands for no number.
#[derive(Clone, Copy, Debug, PartialEq, Eq, Structural)]
pub struct Ratio {
    pub num: i64,
    pub den: u32,
}

impl Ratio {
    /// Whether the ratio stands for a number.
    pub open spec fn is_defined(self) -> bool {
        self.den > 0
    }

    /// Whether the ratio stands for the integer `k`.
    pub open spec fn is_integer(self, k: int) -> bool {
        self.den > 0 && self.num == k * self.den
    }

    /// Whether the number lies between the integers `low` and `high`, both included.
    pub open spec fn is_within(self, low: int, high: int) -> bool {
        self.den > 0 && low * self.den <= self.num <= high * self.den
    }

    /// The ratio `num / den`.
    pub fn new(num: i64, den: u32) -> (r: Ratio)
        ensures
            r == (Ratio { num, den }),
    {
        Ratio { num, den }
    }
}

} // verus!
