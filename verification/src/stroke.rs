//! Stroke options: how a shape's outline is rendered. Presence of stroke
//! options on a primitive implies an outlined variant is drawn in addition
//! to (or instead of) the fill.

use vstd::prelude::*;
use crate::scalar::Scalar;
use crate::scalar::SCALE;

verus! {

/// How two adjacent outline segments are joined.
#[derive(Clone, Copy, Debug, PartialEq, Eq, Structural)]
pub enum LineJoin {
    Miter,
    Round,
    Bevel,
}

/// How an open outline's ends are capped.
#[derive(Clone, Copy, Debug, PartialEq, Eq, Structural)]
pub enum LineCap {
    Butt,
    Square,
    Round,
}

/// Line width, join and cap configuration for an outline.
#[derive(Clone, Copy, Debug, PartialEq, Eq, Structural)]
pub struct StrokeOptions {
    pub weight: Scalar,
    pub join: LineJoin,
    pub cap: LineCap,
}

/// True of the stroke options a theme falls back to: weight one unit,
/// miter joins, butt caps.
pub open spec fn is_default_stroke_options(o: StrokeOptions) -> bool {
    o.weight@ == SCALE && o.join == LineJoin::Miter && o.cap == LineCap::Butt
}

impl Default for StrokeOptions {
    /// Weight one unit, miter joins, butt caps.
    fn default() -> (r: StrokeOptions)
        ensures
            is_default_stroke_options(r),
    {
        StrokeOptions { weight: Scalar::from_raw(SCALE), join: LineJoin::Miter, cap: LineCap::Butt }
    }
}

} // verus!
