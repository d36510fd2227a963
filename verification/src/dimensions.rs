use vstd::prelude::*;

verus! {

/// Logical extent of the output surface, in whole pixels.
///
/// Two extents are equal exactly when both sides are equal.
#[derive(Clone, Copy, Debug, PartialEq, Eq, Structural)]
pub struct Dimensions {
    pub width: u32,
    pub height: u32,
}

impl Dimensions {
    /// An extent can back an image only when neither side is zero.
    pub open spec fn valid(self) -> bool {
        self.width > 0 && self.height > 0
    }

    pub fn new(width: u32, height: u32) -> (d: Dimensions)
        ensures
            d == (Dimensions { width, height }),
    {
        Dimensions { width, height }
    }

    /// Whether neither side is zero.
    pub fn is_valid(&self) -> (ok: bool)
        ensures
            ok == self.valid(),
    {
        self.width > 0 && self.height > 0
    }
}

} // verus!
