//! End-to-end scenarios: build an ellipse through the draw context,
//! finalize it, and inspect the queued mesh and style.

use draw_core::color::Rgba;
use draw_core::draw::Draw;
use draw_core::ellipse::DrawError;
use draw_core::ellipse::Ellipse;
use draw_core::scalar::Scalar;
use draw_core::scalar::SCALE;
use draw_core::stroke::LineCap;
use draw_core::stroke::LineJoin;

fn units(n: i64) -> Scalar {
    Scalar::from_int(n).unwrap()
}

#[test]
fn default_ellipse_resolves_to_fifty_points_and_a_fan() {
    let mut draw = Draw::new();
    let handle = draw.ellipse();
    handle.finish(&mut draw).unwrap();
    assert_eq!(draw.queue.len(), 1);
    let drawn = &draw.queue[0];
    // 50 boundary points, fan fill of 48 triangles, no stroke.
    assert_eq!(drawn.mesh.points.len(), 50);
    assert_eq!(drawn.mesh.fill_indices.len(), 3 * 48);
    assert_eq!(drawn.mesh.stroke_indices.len(), 0);
    // Theme default fill: opaque white.
    assert_eq!(drawn.style.fill, Some(Rgba::white()));
    assert!(drawn.style.stroke.is_none());
    // First sample sits on the positive x axis at half the default width.
    assert_eq!(drawn.mesh.points[0].x.to_raw(), 50 * SCALE);
    assert_eq!(drawn.mesh.points[0].y.to_raw(), 0);
    // The fan is anchored at vertex zero.
    assert_eq!(drawn.mesh.fill_indices[0], 0);
    assert_eq!(drawn.mesh.fill_indices[1], 1);
    assert_eq!(drawn.mesh.fill_indices[2], 2);
    assert_eq!(drawn.mesh.fill_indices[141], 0);
    assert_eq!(drawn.mesh.fill_indices[142], 48);
    assert_eq!(drawn.mesh.fill_indices[143], 49);
}

#[test]
fn four_point_ellipse_hits_the_axis_crossings_exactly() {
    let mut draw = Draw::new();
    let handle = draw.ellipse().resolution(4).w_h(units(2), units(2)).stroke(Rgba::black());
    handle.finish(&mut draw).unwrap();
    let drawn = &draw.queue[0];
    assert_eq!(drawn.mesh.points.len(), 4);
    let expected = [(SCALE, 0), (0, SCALE), (-SCALE, 0), (0, -SCALE)];
    for (k, (ex, ey)) in expected.iter().enumerate() {
        assert_eq!(drawn.mesh.points[k].x.to_raw(), *ex);
        assert_eq!(drawn.mesh.points[k].y.to_raw(), *ey);
    }
    // A non-empty closed stroke contour: four segments.
    assert_eq!(drawn.mesh.stroke_indices.len(), 8);
    assert_eq!(
        drawn.mesh.stroke_indices,
        vec![0usize, 1, 1, 2, 2, 3, 3, 0],
    );
    let stroke = drawn.style.stroke.expect("stroke was requested");
    assert_eq!(stroke.color, Rgba::black());
    assert_eq!(stroke.options.weight.to_raw(), SCALE);
    assert_eq!(stroke.options.join, LineJoin::Miter);
    assert_eq!(stroke.options.cap, LineCap::Butt);
}

#[test]
fn sampled_points_lie_on_the_boundary_within_tolerance() {
    let cases: [(i64, i64, usize); 4] = [(3, 2, 7), (100, 100, 50), (12, 5, 33), (9, 9, 3)];
    for (w, h, r) in cases {
        let theme = Draw::new().theme;
        let e = Ellipse::default().w_h(units(w), units(h)).resolution(r);
        let drawn = e.into_drawn(&theme).unwrap();
        assert_eq!(drawn.mesh.points.len(), r);
        let half_w = w as f64 / 2.0;
        let half_h = h as f64 / 2.0;
        for p in &drawn.mesh.points {
            let x = p.x.to_raw() as f64 / SCALE as f64;
            let y = p.y.to_raw() as f64 / SCALE as f64;
            let on = (x / half_w) * (x / half_w) + (y / half_h) * (y / half_h);
            assert!((on - 1.0).abs() < 0.02, "({x}, {y}) strays from the {w}x{h} boundary");
        }
    }
}

#[test]
fn depth_is_rejected_before_tessellation() {
    let theme = Draw::new().theme;
    let e = Ellipse::default().depth(units(1));
    assert_eq!(e.into_drawn(&theme), Err(DrawError::DepthUnsupported));
    // Through the handle: the queue stays untouched.
    let mut draw = Draw::new();
    let r = draw.ellipse().depth(units(3)).finish(&mut draw);
    assert_eq!(r, Err(DrawError::DepthUnsupported));
    assert_eq!(draw.queue.len(), 0);
    // A depth wins over any other configuration.
    let e = Ellipse::default().w_h(units(4), units(4)).depth(units(2));
    assert_eq!(e.into_drawn(&theme), Err(DrawError::DepthUnsupported));
}

#[test]
fn out_of_range_resolutions_are_rejected() {
    let theme = Draw::new().theme;
    let e = Ellipse::default().resolution(2);
    assert_eq!(e.into_drawn(&theme), Err(DrawError::InvalidResolution));
    let e = Ellipse::default().resolution(0);
    assert_eq!(e.into_drawn(&theme), Err(DrawError::InvalidResolution));
    let e = Ellipse::default().resolution(100_001);
    assert_eq!(e.into_drawn(&theme), Err(DrawError::InvalidResolution));
    let e = Ellipse::default().resolution(3);
    let drawn = e.into_drawn(&theme).unwrap();
    assert_eq!(drawn.mesh.points.len(), 3);
    assert_eq!(drawn.mesh.fill_indices.len(), 3);
}

#[test]
fn theme_fallback_applies_only_to_unset_colors() {
    let red = Rgba::new(65535, 0, 0, 65535);
    let blue = Rgba::new(0, 0, 65535, 65535);
    let mut draw = Draw::new();
    draw.theme.ellipse.fill_color = red;
    // No color set: the theme's ellipse fill is used.
    let drawn = Ellipse::default().into_drawn(&draw.theme).unwrap();
    assert_eq!(drawn.style.fill, Some(red));
    // Explicit color: the theme is never consulted.
    let drawn = Ellipse::default().color(blue).into_drawn(&draw.theme).unwrap();
    assert_eq!(drawn.style.fill, Some(blue));
    // Stroke color falls back the same way once a stroke is requested.
    draw.theme.ellipse.stroke_by_default = true;
    let drawn = Ellipse::default().into_drawn(&draw.theme).unwrap();
    assert_eq!(drawn.style.stroke.unwrap().color, draw.theme.ellipse.stroke_color);
    // No fill: nothing to resolve.
    let drawn = Ellipse::default().no_fill().into_drawn(&draw.theme).unwrap();
    assert_eq!(drawn.style.fill, None);
    assert_eq!(drawn.mesh.fill_indices.len(), 0);
}

#[test]
fn queue_keeps_insertion_order_and_drain_resets_it() {
    let red = Rgba::new(65535, 0, 0, 65535);
    let green = Rgba::new(0, 65535, 0, 65535);
    let mut draw = Draw::new();
    draw.ellipse().color(red).finish(&mut draw).unwrap();
    draw.ellipse().color(green).finish(&mut draw).unwrap();
    assert_eq!(draw.queue.len(), 2);
    let frame = draw.drain();
    assert_eq!(frame.len(), 2);
    assert_eq!(frame[0].style.fill, Some(red));
    assert_eq!(frame[1].style.fill, Some(green));
    assert_eq!(draw.queue.len(), 0);
}
