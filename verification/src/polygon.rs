//! The polygon engine: shared machinery that turns an ordered point
//! sequence plus polygon options into fill and/or stroke geometry. The
//! fill is a triangle fan anchored at the first vertex — for `n` points it
//! yields exactly `n - 2` triangles — and the stroke is the closed contour
//! of `n` line segments joining consecutive points.

use vstd::prelude::*;
use crate::scalar::Scalar;
use crate::color::Rgba;
use crate::stroke::StrokeOptions;
use crate::properties::Position;
use crate::properties::Orientation;
use crate::properties::position_unset;
use crate::properties::orientation_unset;
use crate::mesh::Mesh;
use crate::mesh::Point;

verus! {

/// Tessellation was handed fewer points than the requested geometry
/// needs: three for a fill, two for a stroke.
#[derive(Clone, Copy, Debug, PartialEq, Eq, Structural)]
pub struct DegenerateGeometryError;

/// The union of every concern a polygon carries: spatial properties, fill
/// color and toggle, stroke color and options.
#[derive(Clone, Copy, Debug, PartialEq, Eq)]
pub struct PolygonOptions {
    pub position: Position,
    pub orientation: Orientation,
    pub fill_color: Option<Rgba>,
    pub no_fill: bool,
    pub stroke_color: Option<Rgba>,
    pub stroke: Option<StrokeOptions>,
}

/// True of polygon options with nothing set: filled, every style gap left
/// for the theme.
pub open spec fn polygon_options_unset(o: PolygonOptions) -> bool {
    &&& position_unset(o.position)
    &&& orientation_unset(o.orientation)
    &&& o.fill_color is None
    &&& !o.no_fill
    &&& o.stroke_color is None
    &&& o.stroke is None
}

/// The in-progress polygon descriptor a primitive owns and configures.
#[derive(Clone, Copy, Debug, PartialEq, Eq)]
pub struct PolygonInit {
    pub opts: PolygonOptions,
}

impl PolygonInit {
    /// A descriptor with nothing set.
    pub fn unset() -> (r: PolygonInit)
        ensures
            polygon_options_unset(r.opts),
    {
        PolygonInit {
            opts: PolygonOptions {
                position: Position::unset(),
                orientation: Orientation::unset(),
                fill_color: None,
                no_fill: false,
                stroke_color: None,
                stroke: None,
            },
        }
    }
}

/// Triangle `t` of a fan sits at indices `3t .. 3t + 3` and joins vertex
/// 0 with vertices `t + 1` and `t + 2`.
pub open spec fn fan_triangle_at(s: Seq<usize>, t: int) -> bool {
    &&& s[3 * t] as int == 0
    &&& s[3 * t + 1] as int == t + 1
    &&& s[3 * t + 2] as int == t + 2
}

/// The index sequence of a triangle fan over `n` points, anchored at
/// vertex 0: exactly `n - 2` triangles.
pub open spec fn is_fan_fill(s: Seq<usize>, n: int) -> bool {
    &&& s.len() == 3 * (n - 2)
    &&& forall|t: int| 0 <= t < n - 2 ==> #[trigger] fan_triangle_at(s, t)
}

/// Segment `i` of a closed contour sits at indices `2i .. 2i + 2` and
/// joins vertex `i` with its successor, wrapping at the end.
pub open spec fn contour_segment_at(s: Seq<usize>, i: int, n: int) -> bool {
    &&& s[2 * i] as int == i
    &&& s[2 * i + 1] as int == (if i + 1 == n { 0int } else { i + 1 })
}

/// The index sequence of the closed contour over `n` points: exactly `n`
/// line segments joining consecutive points.
pub open spec fn is_closed_contour(s: Seq<usize>, n: int) -> bool {
    &&& s.len() == 2 * n
    &&& forall|i: int| 0 <= i < n ==> #[trigger] contour_segment_at(s, i, n)
}

/// Turn an ordered point sequence into a mesh: a triangle fan when `fill`
/// is asked for, the closed contour when `stroke` is. A fill needs at
/// least three points and a stroke at least two; fewer is degenerate.
pub fn tessellate(points: Vec<Point>, fill: bool, stroke: bool) -> (r: Result<
    Mesh,
    DegenerateGeometryError,
>)
    ensures
        (r is Ok) <==> ((fill ==> points@.len() >= 3) && (stroke ==> points@.len() >= 2)),
        r matches Ok(m) ==> {
            &&& m.points@ == points@
            &&& if fill {
                is_fan_fill(m.fill_indices@, points@.len() as int)
            } else {
                m.fill_indices@.len() == 0
            }
            &&& if stroke {
                is_closed_contour(m.stroke_indices@, points@.len() as int)
            } else {
                m.stroke_indices@.len() == 0
            }
        },
{
    let n = points.len();
    if fill && n < 3 {
        return Err(DegenerateGeometryError);
    }
    if stroke && n < 2 {
        return Err(DegenerateGeometryError);
    }
    let mut fill_indices: Vec<usize> = Vec::new();
    if fill {
        let mut t: usize = 0;
        while t < n - 2
            invariant
                3 <= n == points@.len(),
                t <= n - 2,
                fill_indices@.len() == 3 * t,
                forall|j: int| 0 <= j < t ==> #[trigger] fan_triangle_at(fill_indices@, j),
            decreases n - 2 - t,
        {
            let ghost prev = fill_indices@;
            fill_indices.push(0);
            fill_indices.push(t + 1);
            fill_indices.push(t + 2);
            proof {
                assert(fan_triangle_at(fill_indices@, t as int));
                assert forall|j: int| 0 <= j < t implies #[trigger] fan_triangle_at(
                    fill_indices@,
                    j,
                ) by {
                    assert(fan_triangle_at(prev, j));
                    assert(fill_indices@[3 * j] == prev[3 * j]);
                    assert(fill_indices@[3 * j + 1] == prev[3 * j + 1]);
                    assert(fill_indices@[3 * j + 2] == prev[3 * j + 2]);
                }
            }
            t = t + 1;
        }
    }
    let mut stroke_indices: Vec<usize> = Vec::new();
    if stroke {
        let mut i: usize = 0;
        while i < n
            invariant
                2 <= n == points@.len(),
                i <= n,
                stroke_indices@.len() == 2 * i,
                forall|j: int| 0 <= j < i ==> #[trigger] contour_segment_at(
                    stroke_indices@,
                    j,
                    n as int,
                ),
            decreases n - i,
        {
            let ghost prev = stroke_indices@;
            stroke_indices.push(i);
            if i + 1 == n {
                stroke_indices.push(0);
            } else {
                stroke_indices.push(i + 1);
            }
            proof {
                assert(contour_segment_at(stroke_indices@, i as int, n as int));
                assert forall|j: int| 0 <= j < i implies #[trigger] contour_segment_at(
                    stroke_indices@,
                    j,
                    n as int,
                ) by {
                    assert(contour_segment_at(prev, j, n as int));
                    assert(stroke_indices@[2 * j] == prev[2 * j]);
                    assert(stroke_indices@[2 * j + 1] == prev[2 * j + 1]);
                }
            }
            i = i + 1;
        }
    }
    Ok(Mesh { points, fill_indices, stroke_indices })
}

} // verus!
