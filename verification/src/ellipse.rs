//! The ellipse primitive: dimension properties, a circumference
//! resolution, and an owned polygon descriptor. Configuration is chained;
//! `into_drawn` runs the one-way resolution algorithm, applying theme
//! defaults to whatever was left unset and tessellating the sampled
//! circumference into a mesh.

use vstd::prelude::*;
use crate::scalar::Scalar;
use crate::scalar::SCALE;
use crate::scalar::RAW_MAX;
use crate::scalar::scale_by_unit;
use crate::scalar::scale_by_unit_spec;
use crate::trig::MAX_RESOLUTION;
use crate::trig::cos_turn;
use crate::trig::sin_turn;
use crate::trig::unit_cos;
use crate::trig::unit_sin;
use crate::color::Rgba;
use crate::stroke::StrokeOptions;
use crate::stroke::is_default_stroke_options;
use crate::properties::Dimensions;
use crate::properties::Position;
use crate::properties::dimensions_unset;
use crate::polygon::PolygonInit;
use crate::polygon::polygon_options_unset;
use crate::polygon::is_fan_fill;
use crate::polygon::is_closed_contour;
use crate::polygon::tessellate;
use crate::mesh::Point;
use crate::mesh::Drawn;
use crate::mesh::ResolvedStyle;
use crate::mesh::StrokeStyle;
use crate::theme::Theme;
use crate::theme::ThemeEntry;

verus! {

/// Circumference samples used when the caller sets no resolution.
pub const DEFAULT_RESOLUTION: usize = 50;

/// Raw extent used for a width or height the caller left unset: 100 units.
pub const DEFAULT_DIMENSION_RAW: i64 = 100 * SCALE;

/// A fatal error raised by the resolution algorithm: continuing would
/// silently produce wrong geometry.
#[derive(Clone, Copy, Debug, PartialEq, Eq, Structural)]
pub enum DrawError {
    /// A depth was set on a two-dimensional primitive.
    DepthUnsupported,
    /// The circumference resolution is below three samples or beyond
    /// `MAX_RESOLUTION`.
    InvalidResolution,
}

/// Properties related to drawing an ellipse.
#[derive(Clone, Copy, Debug)]
pub struct Ellipse {
    pub dimensions: Dimensions,
    pub resolution: Option<usize>,
    pub polygon: PolygonInit,
}

/// True of an ellipse as constructed, before any configuration call.
pub open spec fn ellipse_unset(e: Ellipse) -> bool {
    &&& dimensions_unset(e.dimensions)
    &&& e.resolution is None
    &&& polygon_options_unset(e.polygon.opts)
}

impl Default for Ellipse {
    /// An ellipse with every property unset.
    fn default() -> (r: Ellipse)
        ensures
            ellipse_unset(r),
    {
        Ellipse { dimensions: Dimensions::unset(), resolution: None, polygon: PolygonInit::unset() }
    }
}

// What each configuration call does, stated once and shared by the
// setter's ensures and the laws below. Every predicate pins the whole
// result, so setting one property provably leaves every other unchanged.

/// `w_h` sets exactly the width and height.
pub open spec fn w_h_post(e: Ellipse, w: Scalar, h: Scalar, r: Ellipse) -> bool {
    &&& r.dimensions.x == Some(w)
    &&& r.dimensions.y == Some(h)
    &&& r.dimensions.z == e.dimensions.z
    &&& r.resolution == e.resolution
    &&& r.polygon == e.polygon
}

/// `radius` sets width and height to one doubled scalar.
pub open spec fn radius_post(e: Ellipse, rad: Scalar, r: Ellipse) -> bool {
    &&& r.dimensions.x matches Some(s) && s@ == 2 * rad@
    &&& r.dimensions.y == r.dimensions.x
    &&& r.dimensions.z == e.dimensions.z
    &&& r.resolution == e.resolution
    &&& r.polygon == e.polygon
}

/// `depth` sets exactly the depth extent.
pub open spec fn depth_post(e: Ellipse, d: Scalar, r: Ellipse) -> bool {
    &&& r.dimensions.x == e.dimensions.x
    &&& r.dimensions.y == e.dimensions.y
    &&& r.dimensions.z == Some(d)
    &&& r.resolution == e.resolution
    &&& r.polygon == e.polygon
}

/// `resolution` sets exactly the circumference sample count.
pub open spec fn resolution_post(e: Ellipse, res: usize, r: Ellipse) -> bool {
    &&& r.dimensions == e.dimensions
    &&& r.resolution == Some(res)
    &&& r.polygon == e.polygon
}

/// `x_y` sets exactly the two planar position components.
pub open spec fn x_y_post(e: Ellipse, x: Scalar, y: Scalar, r: Ellipse) -> bool {
    &&& r.dimensions == e.dimensions
    &&& r.resolution == e.resolution
    &&& r.polygon.opts.position == (Position {
        x: Some(x),
        y: Some(y),
        z: e.polygon.opts.position.z,
    })
    &&& r.polygon.opts.orientation == e.polygon.opts.orientation
    &&& r.polygon.opts.fill_color == e.polygon.opts.fill_color
    &&& r.polygon.opts.no_fill == e.polygon.opts.no_fill
    &&& r.polygon.opts.stroke_color == e.polygon.opts.stroke_color
    &&& r.polygon.opts.stroke == e.polygon.opts.stroke
}

/// `rotate` sets exactly the rotation.
pub open spec fn rotate_post(e: Ellipse, radians: Scalar, r: Ellipse) -> bool {
    &&& r.dimensions == e.dimensions
    &&& r.resolution == e.resolution
    &&& r.polygon.opts.position == e.polygon.opts.position
    &&& r.polygon.opts.orientation.rotation == Some(radians)
    &&& r.polygon.opts.fill_color == e.polygon.opts.fill_color
    &&& r.polygon.opts.no_fill == e.polygon.opts.no_fill
    &&& r.polygon.opts.stroke_color == e.polygon.opts.stroke_color
    &&& r.polygon.opts.stroke == e.polygon.opts.stroke
}

/// `color` sets exactly the fill color.
pub open spec fn color_post(e: Ellipse, c: Rgba, r: Ellipse) -> bool {
    &&& r.dimensions == e.dimensions
    &&& r.resolution == e.resolution
    &&& r.polygon.opts.position == e.polygon.opts.position
    &&& r.polygon.opts.orientation == e.polygon.opts.orientation
    &&& r.polygon.opts.fill_color == Some(c)
    &&& r.polygon.opts.no_fill == e.polygon.opts.no_fill
    &&& r.polygon.opts.stroke_color == e.polygon.opts.stroke_color
    &&& r.polygon.opts.stroke == e.polygon.opts.stroke
}

/// `no_fill` switches exactly the fill toggle off.
pub open spec fn no_fill_post(e: Ellipse, r: Ellipse) -> bool {
    &&& r.dimensions == e.dimensions
    &&& r.resolution == e.resolution
    &&& r.polygon.opts.position == e.polygon.opts.position
    &&& r.polygon.opts.orientation == e.polygon.opts.orientation
    &&& r.polygon.opts.fill_color == e.polygon.opts.fill_color
    &&& r.polygon.opts.no_fill
    &&& r.polygon.opts.stroke_color == e.polygon.opts.stroke_color
    &&& r.polygon.opts.stroke == e.polygon.opts.stroke
}

/// `stroke` sets exactly the stroke color.
pub open spec fn stroke_post(e: Ellipse, c: Rgba, r: Ellipse) -> bool {
    &&& r.dimensions == e.dimensions
    &&& r.resolution == e.resolution
    &&& r.polygon.opts.position == e.polygon.opts.position
    &&& r.polygon.opts.orientation == e.polygon.opts.orientation
    &&& r.polygon.opts.fill_color == e.polygon.opts.fill_color
    &&& r.polygon.opts.no_fill == e.polygon.opts.no_fill
    &&& r.polygon.opts.stroke_color == Some(c)
    &&& r.polygon.opts.stroke == e.polygon.opts.stroke
}

/// `stroke_options` sets exactly the stroke options.
pub open spec fn stroke_options_post(e: Ellipse, o: StrokeOptions, r: Ellipse) -> bool {
    &&& r.dimensions == e.dimensions
    &&& r.resolution == e.resolution
    &&& r.polygon.opts.position == e.polygon.opts.position
    &&& r.polygon.opts.orientation == e.polygon.opts.orientation
    &&& r.polygon.opts.fill_color == e.polygon.opts.fill_color
    &&& r.polygon.opts.no_fill == e.polygon.opts.no_fill
    &&& r.polygon.opts.stroke_color == e.polygon.opts.stroke_color
    &&& r.polygon.opts.stroke == Some(o)
}

impl Ellipse {
    /// Width and height any subsequent arithmetic can carry.
    pub open spec fn wf(self) -> bool {
        &&& self.dimensions.x matches Some(s) ==> s.in_range()
        &&& self.dimensions.y matches Some(s) ==> s.in_range()
    }

    /// Specify the width and height of the ellipse.
    pub fn w_h(self, w: Scalar, h: Scalar) -> (r: Self)
        ensures
            w_h_post(self, w, h, r),
    {
        Ellipse {
            dimensions: Dimensions { x: Some(w), y: Some(h), z: self.dimensions.z },
            ..self
        }
    }

    /// Specify the width and height of the ellipse via a given radius.
    pub fn radius(self, radius: Scalar) -> (r: Self)
        requires
            -RAW_MAX <= 2 * radius@ <= RAW_MAX,
        ensures
            radius_post(self, radius, r),
    {
        let side = radius.double();
        self.w_h(side, side)
    }

    /// Specify a depth extent. The ellipse is two-dimensional: resolution
    /// rejects any set depth as a configuration error.
    pub fn depth(self, d: Scalar) -> (r: Self)
        ensures
            depth_post(self, d, r),
    {
        Ellipse {
            dimensions: Dimensions { x: self.dimensions.x, y: self.dimensions.y, z: Some(d) },
            ..self
        }
    }

    /// The number of sides used to draw the ellipse.
    pub fn resolution(self, resolution: usize) -> (r: Self)
        ensures
            resolution_post(self, resolution, r),
    {
        Ellipse { resolution: Some(resolution), ..self }
    }

    /// Place the ellipse at the given planar position.
    pub fn x_y(self, x: Scalar, y: Scalar) -> (r: Self)
        ensures
            x_y_post(self, x, y, r),
    {
        let mut opts = self.polygon.opts;
        opts.position = Position { x: Some(x), y: Some(y), z: opts.position.z };
        Ellipse { polygon: PolygonInit { opts }, ..self }
    }

    /// Rotate the ellipse about the z axis.
    pub fn rotate(self, radians: Scalar) -> (r: Self)
        ensures
            rotate_post(self, radians, r),
    {
        let mut opts = self.polygon.opts;
        opts.orientation.rotation = Some(radians);
        Ellipse { polygon: PolygonInit { opts }, ..self }
    }

    /// Fill the interior with the given color.
    pub fn color(self, color: Rgba) -> (r: Self)
        ensures
            color_post(self, color, r),
    {
        let mut opts = self.polygon.opts;
        opts.fill_color = Some(color);
        Ellipse { polygon: PolygonInit { opts }, ..self }
    }

    /// Draw no interior fill.
    pub fn no_fill(self) -> (r: Self)
        ensures
            no_fill_post(self, r),
    {
        let mut opts = self.polygon.opts;
        opts.no_fill = true;
        Ellipse { polygon: PolygonInit { opts }, ..self }
    }

    /// Stroke the outline with the given color.
    pub fn stroke(self, color: Rgba) -> (r: Self)
        ensures
            stroke_post(self, color, r),
    {
        let mut opts = self.polygon.opts;
        opts.stroke_color = Some(color);
        Ellipse { polygon: PolygonInit { opts }, ..self }
    }

    /// Replace the stroke options wholesale.
    pub fn stroke_options(self, options: StrokeOptions) -> (r: Self)
        ensures
            stroke_options_post(self, options, r),
    {
        let mut opts = self.polygon.opts;
        opts.stroke = Some(options);
        Ellipse { polygon: PolygonInit { opts }, ..self }
    }
}

// The resolution algorithm, stated as spec functions first.

/// The raw width resolution uses: the set width, or 100 units.
pub open spec fn resolved_w(e: Ellipse) -> int {
    match e.dimensions.x {
        Some(s) => s@,
        None => DEFAULT_DIMENSION_RAW as int,
    }
}

/// The raw height resolution uses: the set height, or 100 units.
pub open spec fn resolved_h(e: Ellipse) -> int {
    match e.dimensions.y {
        Some(s) => s@,
        None => DEFAULT_DIMENSION_RAW as int,
    }
}

/// The circumference sample count resolution uses: the set count, or 50.
pub open spec fn resolved_res(e: Ellipse) -> int {
    match e.resolution {
        Some(r) => r as int,
        None => DEFAULT_RESOLUTION as int,
    }
}

/// A sample count the tessellator accepts.
pub open spec fn res_ok(e: Ellipse) -> bool {
    3 <= resolved_res(e) <= MAX_RESOLUTION
}

/// Point `k` of the sampled circumference: the inscribed ellipse of the
/// `(w, h)` rectangle centered at the origin, sampled at `k / n` of a
/// full turn starting at angle zero.
pub open spec fn sample_at(e: Ellipse, k: int, n: int, p: Point) -> bool {
    &&& p.x@ == scale_by_unit_spec(resolved_w(e), cos_turn(k, n))
    &&& p.y@ == scale_by_unit_spec(resolved_h(e), sin_turn(k, n))
}

/// True when a stroke is drawn: stroke options or a stroke color were
/// set, or the theme asks for an outline by default.
pub open spec fn stroke_requested(e: Ellipse, entry: ThemeEntry) -> bool {
    e.polygon.opts.stroke is Some || e.polygon.opts.stroke_color is Some
        || entry.stroke_by_default
}

/// The fill color the mesh is drawn with: none when filling is off, the
/// set color when one was set, else the theme's default. An ellipse with
/// an explicit color never consults the theme for color.
pub open spec fn resolved_fill(e: Ellipse, entry: ThemeEntry) -> Option<Rgba> {
    if e.polygon.opts.no_fill {
        None
    } else {
        match e.polygon.opts.fill_color {
            Some(c) => Some(c),
            None => Some(entry.fill_color),
        }
    }
}

/// The stroke color: the set one, else the theme's default.
pub open spec fn resolved_stroke_color(e: Ellipse, entry: ThemeEntry) -> Rgba {
    match e.polygon.opts.stroke_color {
        Some(c) => c,
        None => entry.stroke_color,
    }
}

/// The stroke options the stroke is drawn with: the set ones, else the
/// defaults.
pub open spec fn resolved_stroke_options_ok(e: Ellipse, o: StrokeOptions) -> bool {
    match e.polygon.opts.stroke {
        Some(set) => o == set,
        None => is_default_stroke_options(o),
    }
}

/// Everything resolution promises of a finalized ellipse: the sampled
/// circumference, the fan fill, the closed stroke contour, and every
/// style gap resolved from the theme.
pub open spec fn resolves_to(e: Ellipse, th: Theme, d: Drawn) -> bool {
    let n = resolved_res(e);
    let entry = th.ellipse;
    &&& d.mesh.points@.len() == n
    &&& forall|k: int| 0 <= k < n ==> sample_at(e, k, n, #[trigger] d.mesh.points@[k])
    &&& if e.polygon.opts.no_fill {
        d.mesh.fill_indices@.len() == 0
    } else {
        is_fan_fill(d.mesh.fill_indices@, n)
    }
    &&& if stroke_requested(e, entry) {
        is_closed_contour(d.mesh.stroke_indices@, n)
    } else {
        d.mesh.stroke_indices@.len() == 0
    }
    &&& d.style.fill == resolved_fill(e, entry)
    &&& (d.style.stroke is Some <==> stroke_requested(e, entry))
    &&& (d.style.stroke matches Some(ss) ==> ss.color == resolved_stroke_color(e, entry)
        && resolved_stroke_options_ok(e, ss.options))
    &&& d.style.position == e.polygon.opts.position
    &&& d.style.orientation == e.polygon.opts.orientation
}

/// Sample the circumference of the inscribed ellipse of the `(w, h)`
/// rectangle centered at the origin into `res` evenly spaced points,
/// starting at angle zero.
fn circumference_points(w: Scalar, h: Scalar, res: usize) -> (v: Vec<Point>)
    requires
        w.in_range(),
        h.in_range(),
        1 <= res <= MAX_RESOLUTION,
    ensures
        v@.len() == res,
        forall|k: int| 0 <= k < res ==> {
            &&& (#[trigger] v@[k]).x@ == scale_by_unit_spec(w@, cos_turn(k, res as int))
            &&& v@[k].y@ == scale_by_unit_spec(h@, sin_turn(k, res as int))
        },
{
    let mut v: Vec<Point> = Vec::new();
    let mut k: usize = 0;
    while k < res
        invariant
            w.in_range(),
            h.in_range(),
            1 <= res <= MAX_RESOLUTION,
            k <= res,
            v@.len() == k,
            forall|j: int| 0 <= j < k ==> {
                &&& (#[trigger] v@[j]).x@ == scale_by_unit_spec(w@, cos_turn(j, res as int))
                &&& v@[j].y@ == scale_by_unit_spec(h@, sin_turn(j, res as int))
            },
        decreases res - k,
    {
        let c = unit_cos(k, res);
        let s = unit_sin(k, res);
        let x = scale_by_unit(w, c);
        let y = scale_by_unit(h, s);
        v.push(Point { x, y });
        k = k + 1;
    }
    v
}

impl Ellipse {
    /// Resolve the ellipse into a mesh and a drawing style. Consumes the
    /// descriptor: the transition from building to resolved is one-way.
    /// A set depth is a fatal configuration error; a resolved sample
    /// count outside `3 ..= MAX_RESOLUTION` is rejected before any
    /// tessellation runs.
    pub fn into_drawn(self, theme: &Theme) -> (r: Result<Drawn, DrawError>)
        requires
            self.wf(),
        ensures
            (r is Ok) <==> (self.dimensions.z is None && res_ok(self)),
            (r == Err::<Drawn, DrawError>(DrawError::DepthUnsupported)) <==> self.dimensions.z
                is Some,
            (r == Err::<Drawn, DrawError>(DrawError::InvalidResolution)) <==> (self.dimensions.z
                is None && !res_ok(self)),
            r matches Ok(d) ==> resolves_to(self, *theme, d),
    {
        if self.dimensions.z.is_some() {
            return Err(DrawError::DepthUnsupported);
        }
        let res: usize = match self.resolution {
            Some(r) => r,
            None => DEFAULT_RESOLUTION,
        };
        if res < 3 || res > MAX_RESOLUTION {
            return Err(DrawError::InvalidResolution);
        }
        let w: Scalar = match self.dimensions.x {
            Some(s) => s,
            None => Scalar::from_raw(DEFAULT_DIMENSION_RAW),
        };
        let h: Scalar = match self.dimensions.y {
            Some(s) => s,
            None => Scalar::from_raw(DEFAULT_DIMENSION_RAW),
        };
        let points = circumference_points(w, h, res);
        let entry = theme.ellipse;
        let fill = !self.polygon.opts.no_fill;
        let stroke_on = self.polygon.opts.stroke.is_some() || self.polygon.opts.stroke_color.is_some()
            || entry.stroke_by_default;
        let mesh = match tessellate(points, fill, stroke_on) {
            Ok(m) => m,
            Err(_) => {
                proof {
                    assert(false);
                }
                vstd::pervasive::unreached()
            },
        };
        let fill_color: Option<Rgba> = if self.polygon.opts.no_fill {
            None
        } else {
            match self.polygon.opts.fill_color {
                Some(c) => Some(c),
                None => Some(entry.fill_color),
            }
        };
        let stroke_style: Option<StrokeStyle> = if stroke_on {
            Some(
                StrokeStyle {
                    color: match self.polygon.opts.stroke_color {
                        Some(c) => c,
                        None => entry.stroke_color,
                    },
                    options: match self.polygon.opts.stroke {
                        Some(o) => o,
                        None => StrokeOptions::default(),
                    },
                },
            )
        } else {
            None
        };
        Ok(
            Drawn {
                mesh,
                style: ResolvedStyle {
                    fill: fill_color,
                    stroke: stroke_style,
                    position: self.polygon.opts.position,
                    orientation: self.polygon.opts.orientation,
                },
            },
        )
    }
}

/// A finished primitive descriptor of any kind.
#[derive(Clone, Copy, Debug)]
pub enum Primitive {
    Ellipse(Ellipse),
}

impl Primitive {
    /// Wrap an ellipse descriptor.
    pub fn from_ellipse(prim: Ellipse) -> (r: Primitive)
        ensures
            r == Primitive::Ellipse(prim),
    {
        Primitive::Ellipse(prim)
    }

    /// The ellipse this primitive wraps, if it wraps one.
    pub fn into_ellipse(self) -> (r: Option<Ellipse>)
        ensures
            self matches Primitive::Ellipse(e) ==> r == Some(e),
    {
        match self {
            Primitive::Ellipse(prim) => Some(prim),
        }
    }
}

// Laws of the builder, each proved from the shared setter predicates.

/// Law: an ellipse built with no dimension or resolution calls resolves
/// to width 100, height 100 and resolution 50.
pub proof fn lemma_default_resolution_values(e: Ellipse)
    requires
        ellipse_unset(e),
    ensures
        resolved_w(e) == 100 * SCALE,
        resolved_h(e) == 100 * SCALE,
        resolved_res(e) == 50,
        res_ok(e),
{
}

/// Law: `radius(r)` is equivalent to `w_h(2r, 2r)` — from one starting
/// descriptor, the two calls produce identical ellipses.
pub proof fn lemma_radius_matches_w_h(
    e: Ellipse,
    rad: Scalar,
    side: Scalar,
    by_radius: Ellipse,
    by_w_h: Ellipse,
)
    requires
        side@ == 2 * rad@,
        radius_post(e, rad, by_radius),
        w_h_post(e, side, side, by_w_h),
    ensures
        by_radius == by_w_h,
{
    let s = by_radius.dimensions.x->Some_0;
    crate::scalar::lemma_scalar_view_injective(s, side);
    assert(by_radius.dimensions =~= by_w_h.dimensions);
    assert(by_radius =~= by_w_h);
}

/// Law: every sampled circumference point lies inside the axis-aligned
/// bounding rectangle of the resolved `(width, height)` centered at the
/// origin — `|x|` is at most half the width, `|y|` at most half the
/// height.
pub proof fn lemma_samples_in_bounding_rect(e: Ellipse, k: int, n: int, p: Point)
    requires
        1 <= n <= MAX_RESOLUTION,
        0 <= k < n,
        sample_at(e, k, n, p),
    ensures
        2 * crate::scalar::abs_val(p.x@) <= crate::scalar::abs_val(resolved_w(e)),
        2 * crate::scalar::abs_val(p.y@) <= crate::scalar::abs_val(resolved_h(e)),
{
    crate::trig::lemma_unit_bounds(k, n);
    crate::scalar::lemma_scale_by_unit_bound(resolved_w(e), cos_turn(k, n));
    crate::scalar::lemma_scale_by_unit_bound(resolved_h(e), sin_turn(k, n));
}

/// Law: configuration calls are independent — setting the orientation
/// and setting the position commute, and neither touches dimensions,
/// color or stroke.
pub proof fn lemma_position_orientation_commute(
    e: Ellipse,
    radians: Scalar,
    x: Scalar,
    y: Scalar,
    rot_first: Ellipse,
    rot_then_pos: Ellipse,
    pos_first: Ellipse,
    pos_then_rot: Ellipse,
)
    requires
        rotate_post(e, radians, rot_first),
        x_y_post(rot_first, x, y, rot_then_pos),
        x_y_post(e, x, y, pos_first),
        rotate_post(pos_first, radians, pos_then_rot),
    ensures
        rot_then_pos == pos_then_rot,
        rot_then_pos.dimensions == e.dimensions,
        rot_then_pos.polygon.opts.fill_color == e.polygon.opts.fill_color,
        rot_then_pos.polygon.opts.stroke_color == e.polygon.opts.stroke_color,
        rot_then_pos.polygon.opts.stroke == e.polygon.opts.stroke,
{
    assert(rot_then_pos.polygon.opts =~= pos_then_rot.polygon.opts);
    assert(rot_then_pos.polygon =~= pos_then_rot.polygon);
    assert(rot_then_pos =~= pos_then_rot);
}

} // verus!
