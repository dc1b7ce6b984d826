//! A pair of coordinates with saturating arithmetic, used for the scrolling
//! viewport's `(start, end)` bounds.

use vstd::prelude::*;

verus! {

/// Largest value a terminal dimension can take: terminal sizes travel as
/// `u16`, so additions saturate there.
pub const SATURATION_MAX: usize = 65535;

#[derive(Clone, Copy, Debug, PartialEq, Eq, Structural)]
pub struct Vec2(pub usize, pub usize);

impl Vec2 {
    /// Component-wise addition, saturating at `SATURATION_MAX`.
    pub fn add(self, rhs: Vec2) -> (r: Vec2)
        ensures
            r.0 == if self.0 + rhs.0 < SATURATION_MAX { self.0 + rhs.0 } else { SATURATION_MAX as int },
            r.1 == if self.1 + rhs.1 < SATURATION_MAX { self.1 + rhs.1 } else { SATURATION_MAX as int },
    {
        let a = if rhs.0 < SATURATION_MAX && self.0 < SATURATION_MAX - rhs.0 {
            self.0 + rhs.0
        } else {
            SATURATION_MAX
        };
        let b = if rhs.1 < SATURATION_MAX && self.1 < SATURATION_MAX - rhs.1 {
            self.1 + rhs.1
        } else {
            SATURATION_MAX
        };
        Vec2(a, b)
    }

    /// Component-wise subtraction, saturating at zero.
    pub fn sub(self, rhs: Vec2) -> (r: Vec2)
        ensures
            r.0 == if self.0 >= rhs.0 { self.0 - rhs.0 } else { 0 },
            r.1 == if self.1 >= rhs.1 { self.1 - rhs.1 } else { 0 },
    {
        let a = if self.0 >= rhs.0 {
            self.0 - rhs.0
        } else {
            0
        };
        let b = if self.1 >= rhs.1 {
            self.1 - rhs.1
        } else {
            0
        };
        Vec2(a, b)
    }
}

} // verus!
