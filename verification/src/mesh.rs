//! The immutable output of tessellation: an ordered vertex sequence, an
//! index sequence describing fill triangles, and an index sequence
//! describing stroke line segments. Ownership moves to the render queue
//! once produced.

use vstd::prelude::*;
use crate::scalar::Scalar;
use crate::color::Rgba;
use crate::stroke::StrokeOptions;
use crate::properties::Position;
use crate::properties::Orientation;

verus! {

/// A two-dimensional vertex.
#[derive(Clone, Copy, Debug, PartialEq, Eq, Structural)]
pub struct Point {
    pub x: Scalar,
    pub y: Scalar,
}

/// Tessellated geometry. `fill_indices` holds triangles as consecutive
/// index triples; `stroke_indices` holds line segments as consecutive
/// index pairs. Both index into `points`.
#[derive(Clone, Debug, PartialEq, Eq)]
pub struct Mesh {
    pub points: Vec<Point>,
    pub fill_indices: Vec<usize>,
    pub stroke_indices: Vec<usize>,
}

/// An outline's resolved color and options.
#[derive(Clone, Copy, Debug, PartialEq, Eq)]
pub struct StrokeStyle {
    pub color: Rgba,
    pub options: StrokeOptions,
}

/// The style a mesh is drawn with, every gap already resolved from the
/// theme. Position and orientation pass through to the rendering backend
/// unchanged.
#[derive(Clone, Copy, Debug, PartialEq, Eq)]
pub struct ResolvedStyle {
    pub fill: Option<Rgba>,
    pub stroke: Option<StrokeStyle>,
    pub position: Position,
    pub orientation: Orientation,
}

/// A finalized primitive: its mesh and the style to draw it with.
#[derive(Clone, Debug, PartialEq, Eq)]
pub struct Drawn {
    pub mesh: Mesh,
    pub style: ResolvedStyle,
}

} // verus!
