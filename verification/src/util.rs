//! Small numeric helpers shared across the crate.
use vstd::prelude::*;

verus! {

/// Clamping helpers on a numeric type.
pub trait NumHelper: Sized {
    /// The receiver clamped from above by `max`.
    fn limit_max(self, max: Self) -> Self;

    /// The receiver clamped from below by `min`.
    fn limit_min(self, min: Self) -> Self;
}

impl NumHelper for u32 {
    fn limit_max(self, max: Self) -> (r: Self)
        ensures
            r == if self > max { max } else { self },
            r <= self && r <= max,
    {
        if self > max {
            max
        } else {
            self
        }
    }

    fn limit_min(self, min: Self) -> (r: Self)
        ensures
            r == if self < min { min } else { self },
            r >= self && r >= min,
    {
        if self < min {
            min
        } else {
            self
        }
    }
}

} // verus!
