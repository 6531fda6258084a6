//! How an SVG icon is colored.

use vstd::prelude::*;

verus! {

/// Whether an SVG icon takes the text color of the current style or keeps its own colors.
#[derive(Clone, Copy, PartialEq, Eq, Structural, Debug, Hash)]
pub enum SvgType {
    /// Drawn in the text color of the style.
    AdaptColor,
    /// Drawn in its own colors.
    Standard,
}

impl Default for SvgType {
    fn default() -> (r: SvgType)
        ensures
            r == SvgType::Standard,
    {
        SvgType::Standard
    }
}

impl SvgType {
    /// Whether the icon is drawn in the text color of the style.
    pub fn adapts_color(self) -> (r: bool)
        ensures
            r == (self == SvgType::AdaptColor),
    {
        match self {
            SvgType::AdaptColor => true,
            SvgType::Standard => false,
        }
    }
}

} // verus!
