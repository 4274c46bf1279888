//! The per-frame draw context and the fluent drawing handle. The context
//! holds the active theme and the render queue; a handle wraps one
//! in-progress primitive, forwards configuration calls, and on explicit
//! finalization resolves the primitive and appends the result to the
//! queue. Insertion order is kept: later primitives draw on top.

use vstd::prelude::*;
use crate::scalar::Scalar;
use crate::scalar::RAW_MAX;
use crate::color::Rgba;
use crate::stroke::StrokeOptions;
use crate::mesh::Drawn;
use crate::theme::Theme;
use crate::ellipse::Ellipse;
use crate::ellipse::DrawError;
use crate::ellipse::ellipse_unset;
use crate::ellipse::resolves_to;
use crate::ellipse::res_ok;
use crate::ellipse::w_h_post;
use crate::ellipse::radius_post;
use crate::ellipse::resolution_post;
use crate::ellipse::x_y_post;
use crate::ellipse::rotate_post;
use crate::ellipse::color_post;
use crate::ellipse::no_fill_post;
use crate::ellipse::stroke_post;
use crate::ellipse::stroke_options_post;
use crate::ellipse::depth_post;

verus! {

/// The per-frame accumulator: the active theme and the ordered queue of
/// finalized primitives awaiting the rendering backend.
pub struct Draw {
    pub theme: Theme,
    pub queue: Vec<Drawn>,
}

impl Draw {
    /// A fresh frame context with the default theme and an empty queue.
    pub fn new() -> (r: Draw)
        ensures
            crate::theme::is_plain_entry(r.theme.ellipse),
            crate::theme::is_plain_entry(r.theme.rectangle),
            crate::theme::is_plain_entry(r.theme.line),
            crate::theme::is_plain_entry(r.theme.polygon),
            r.queue@.len() == 0,
    {
        Draw { theme: Theme::default(), queue: Vec::new() }
    }

    /// Begin describing an ellipse; returns the fluent handle for it.
    pub fn ellipse(&self) -> (d: DrawingEllipse)
        ensures
            ellipse_unset(d.ty),
    {
        Drawing { ty: Ellipse::default() }
    }

    /// Hand the queued frame to the rendering backend and reset the
    /// queue. The theme is kept for the next frame.
    pub fn drain(&mut self) -> (v: Vec<Drawn>)
        ensures
            v@ == old(self).queue@,
            final(self).queue@.len() == 0,
            final(self).theme == old(self).theme,
    {
        let mut taken: Vec<Drawn> = Vec::new();
        core::mem::swap(&mut taken, &mut self.queue);
        taken
    }
}

/// The fluent builder returned per invoked primitive: wraps the
/// in-progress descriptor and forwards configuration calls.
pub struct Drawing<T> {
    pub ty: T,
}

/// The drawing handle for an ellipse.
pub type DrawingEllipse = Drawing<Ellipse>;

impl Drawing<Ellipse> {
    /// Stroke the outline with the given color.
    pub fn stroke(self, color: Rgba) -> (r: Self)
        ensures
            stroke_post(self.ty, color, r.ty),
    {
        Drawing { ty: self.ty.stroke(color) }
    }

    /// Specify the width and height of the ellipse via a given radius.
    pub fn radius(self, radius: Scalar) -> (r: Self)
        requires
            -RAW_MAX <= 2 * radius@ <= RAW_MAX,
        ensures
            radius_post(self.ty, radius, r.ty),
    {
        Drawing { ty: self.ty.radius(radius) }
    }

    /// The number of sides used to draw the ellipse.
    pub fn resolution(self, resolution: usize) -> (r: Self)
        ensures
            resolution_post(self.ty, resolution, r.ty),
    {
        Drawing { ty: self.ty.resolution(resolution) }
    }

    /// Specify the width and height of the ellipse.
    pub fn w_h(self, w: Scalar, h: Scalar) -> (r: Self)
        ensures
            w_h_post(self.ty, w, h, r.ty),
    {
        Drawing { ty: self.ty.w_h(w, h) }
    }

    /// Specify a depth extent; resolution will reject it.
    pub fn depth(self, d: Scalar) -> (r: Self)
        ensures
            depth_post(self.ty, d, r.ty),
    {
        Drawing { ty: self.ty.depth(d) }
    }

    /// Place the ellipse at the given planar position.
    pub fn x_y(self, x: Scalar, y: Scalar) -> (r: Self)
        ensures
            x_y_post(self.ty, x, y, r.ty),
    {
        Drawing { ty: self.ty.x_y(x, y) }
    }

    /// Rotate the ellipse about the z axis.
    pub fn rotate(self, radians: Scalar) -> (r: Self)
        ensures
            rotate_post(self.ty, radians, r.ty),
    {
        Drawing { ty: self.ty.rotate(radians) }
    }

    /// Fill the interior with the given color.
    pub fn color(self, color: Rgba) -> (r: Self)
        ensures
            color_post(self.ty, color, r.ty),
    {
        Drawing { ty: self.ty.color(color) }
    }

    /// Draw no interior fill.
    pub fn no_fill(self) -> (r: Self)
        ensures
            no_fill_post(self.ty, r.ty),
    {
        Drawing { ty: self.ty.no_fill() }
    }

    /// Replace the stroke options wholesale.
    pub fn stroke_options(self, options: StrokeOptions) -> (r: Self)
        ensures
            stroke_options_post(self.ty, options, r.ty),
    {
        Drawing { ty: self.ty.stroke_options(options) }
    }

    /// Finalize: resolve the wrapped ellipse against the context's theme
    /// and append the result to the render queue. Consumes the handle,
    /// so a primitive cannot be finalized twice. On error the context is
    /// unchanged and the frame must be abandoned.
    pub fn finish(self, draw: &mut Draw) -> (r: Result<(), DrawError>)
        requires
            self.ty.wf(),
        ensures
            (r is Ok) <==> (self.ty.dimensions.z is None && res_ok(self.ty)),
            r matches Err(err) ==> {
                &&& *final(draw) == *old(draw)
                &&& ((err == DrawError::DepthUnsupported) <==> self.ty.dimensions.z is Some)
                &&& ((err == DrawError::InvalidResolution) <==> (self.ty.dimensions.z is None
                    && !res_ok(self.ty)))
            },
            r is Ok ==> {
                &&& final(draw).theme == old(draw).theme
                &&& final(draw).queue@.len() == old(draw).queue@.len() + 1
                &&& final(draw).queue@.subrange(0, old(draw).queue@.len() as int) == old(
                    draw,
                ).queue@
                &&& resolves_to(self.ty, old(draw).theme, final(draw).queue@.last())
            },
    {
        match self.ty.into_drawn(&draw.theme) {
            Ok(drawn) => {
                draw.queue.push(drawn);
                proof {
                    assert(draw.queue@.subrange(0, old(draw).queue@.len() as int) =~= old(
                        draw,
                    ).queue@);
                }
                Ok(())
            },
            Err(err) => Err(err),
        }
    }
}

} // verus!
