//! Colors as fixed-point values.
//!
//! Color components are stored in thousandths of full intensity, so that the
//! whole range 0.0 ..= 1.0 of the backend's floating-point color type maps to
//! the integers 0 ..= 1000. The unverified shell divides by `COLOR_SCALE` when
//! it hands a color to the backend.
use vstd::prelude::*;

verus! {

/// One color component's value for full intensity.
pub const COLOR_SCALE: u32 = 1000;

/// An RGBA color; each component in thousandths of full intensity.
#[derive(Clone, Copy, Debug, PartialEq, Eq, Structural)]
pub struct Rgba {
    pub r: u32,
    pub g: u32,
    pub b: u32,
    pub a: u32,
}

impl Rgba {
    /// Every component lies within the representable intensity range.
    pub open spec fn wf(self) -> bool {
        self.r <= COLOR_SCALE && self.g <= COLOR_SCALE && self.b <= COLOR_SCALE
            && self.a <= COLOR_SCALE
    }
}

/// The color every frame is cleared to: (0.1, 0.2, 0.3, 1.0) in the backend's
/// unit scale.
pub open spec fn spec_clear_color() -> Rgba {
    Rgba { r: 100, g: 200, b: 300, a: 1000 }
}

/// Returns the fixed clear color.
pub fn clear_color() -> (c: Rgba)
    ensures
        c == spec_clear_color(),
        c.wf(),
{
    Rgba { r: 100, g: 200, b: 300, a: 1000 }
}

} // verus!
