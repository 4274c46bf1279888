//! Unit tests for the scalar, the unit-circle samples, the property
//! records, the polygon engine and the primitive wrapper.

use draw_core::color::Rgba;
use draw_core::draw::Draw;
use draw_core::ellipse::Ellipse;
use draw_core::ellipse::Primitive;
use draw_core::mesh::Point;
use draw_core::polygon::DegenerateGeometryError;
use draw_core::polygon::tessellate;
use draw_core::scalar::ConversionError;
use draw_core::scalar::Scalar;
use draw_core::scalar::INT_MAX;
use draw_core::scalar::SCALE;
use draw_core::stroke::LineCap;
use draw_core::stroke::LineJoin;
use draw_core::stroke::StrokeOptions;
use draw_core::theme::PrimitiveKind;
use draw_core::theme::Theme;
use draw_core::trig::unit_cos;
use draw_core::trig::unit_sin;

fn units(n: i64) -> Scalar {
    Scalar::from_int(n).unwrap()
}

#[test]
fn scalar_conversion_and_arithmetic() {
    assert_eq!(units(1).to_raw(), SCALE);
    assert_eq!(units(-5).to_raw(), -5 * SCALE);
    assert_eq!(Scalar::from_int(INT_MAX + 1), Err(ConversionError));
    assert_eq!(Scalar::from_int(-INT_MAX - 1), Err(ConversionError));
    assert!(Scalar::from_int(INT_MAX).is_ok());
    assert_eq!(units(3).plus(units(4)), units(7));
    assert_eq!(units(3).minus(units(4)), units(-1));
    assert_eq!(units(3).negate(), units(-3));
    assert_eq!(units(3).double(), units(6));
    assert!(units(2).less_than(&units(3)));
    assert!(!units(3).less_than(&units(3)));
    assert_eq!(Scalar::from_raw(123).to_raw(), 123);
    assert_eq!(Scalar::zero(), units(0));
}

#[test]
fn unit_circle_is_exact_at_cardinal_indices() {
    assert_eq!((unit_cos(0, 8), unit_sin(0, 8)), (SCALE, 0));
    assert_eq!((unit_cos(2, 8), unit_sin(2, 8)), (0, SCALE));
    assert_eq!((unit_cos(4, 8), unit_sin(4, 8)), (-SCALE, 0));
    assert_eq!((unit_cos(6, 8), unit_sin(6, 8)), (0, -SCALE));
}

#[test]
fn unit_circle_tracks_the_real_one_closely() {
    for n in [3usize, 7, 50, 360] {
        for k in 0..n {
            let angle = 2.0 * std::f64::consts::PI * k as f64 / n as f64;
            let c = unit_cos(k, n) as f64 / SCALE as f64;
            let s = unit_sin(k, n) as f64 / SCALE as f64;
            assert!((c - angle.cos()).abs() < 0.002);
            assert!((s - angle.sin()).abs() < 0.002);
        }
    }
}

#[test]
fn radius_matches_w_h_on_dimensions() {
    let by_radius = Ellipse::default().radius(units(5));
    let by_w_h = Ellipse::default().w_h(units(10), units(10));
    assert_eq!(by_radius.dimensions, by_w_h.dimensions);
    let by_radius = Ellipse::default().radius(Scalar::from_raw(SCALE / 2));
    let by_w_h = Ellipse::default().w_h(units(1), units(1));
    assert_eq!(by_radius.dimensions, by_w_h.dimensions);
}

#[test]
fn setters_leave_unrelated_properties_alone() {
    let red = Rgba::new(65535, 0, 0, 65535);
    let e = Ellipse::default()
        .x_y(units(3), units(4))
        .w_h(units(5), units(6))
        .color(red)
        .stroke(Rgba::black())
        .resolution(12);
    let rotated = e.rotate(units(1));
    assert_eq!(rotated.polygon.opts.position, e.polygon.opts.position);
    assert_eq!(rotated.dimensions, e.dimensions);
    assert_eq!(rotated.polygon.opts.fill_color, e.polygon.opts.fill_color);
    assert_eq!(rotated.polygon.opts.stroke_color, e.polygon.opts.stroke_color);
    assert_eq!(rotated.resolution, e.resolution);
    // And the other way round: position does not disturb orientation.
    let moved = rotated.x_y(units(7), units(8));
    assert_eq!(moved.polygon.opts.orientation, rotated.polygon.opts.orientation);
    assert_eq!(moved.polygon.opts.position.x, Some(units(7)));
    assert_eq!(moved.dimensions, rotated.dimensions);
    // The two orders agree.
    let other_order = e.x_y(units(7), units(8)).rotate(units(1));
    assert_eq!(moved.polygon.opts, other_order.polygon.opts);
}

#[test]
fn tessellate_rejects_degenerate_input() {
    let two = vec![
        Point { x: units(0), y: units(0) },
        Point { x: units(1), y: units(0) },
    ];
    assert_eq!(
        tessellate(two.clone(), true, false).unwrap_err(),
        DegenerateGeometryError,
    );
    let stroke_only = tessellate(two, false, true).unwrap();
    assert_eq!(stroke_only.stroke_indices, vec![0usize, 1, 1, 0]);
    assert_eq!(stroke_only.fill_indices.len(), 0);
    let one = vec![Point { x: units(0), y: units(0) }];
    assert_eq!(
        tessellate(one, false, true).unwrap_err(),
        DegenerateGeometryError,
    );
}

#[test]
fn tessellate_fans_and_closes_larger_polygons() {
    let square = vec![
        Point { x: units(0), y: units(0) },
        Point { x: units(2), y: units(0) },
        Point { x: units(2), y: units(2) },
        Point { x: units(0), y: units(2) },
    ];
    let mesh = tessellate(square, true, true).unwrap();
    assert_eq!(mesh.points.len(), 4);
    assert_eq!(mesh.fill_indices, vec![0usize, 1, 2, 0, 2, 3]);
    assert_eq!(mesh.stroke_indices, vec![0usize, 1, 1, 2, 2, 3, 3, 0]);
}

#[test]
fn theme_entries_are_per_kind() {
    let mut theme = Theme::default();
    let red = Rgba::new(65535, 0, 0, 65535);
    theme.rectangle.fill_color = red;
    assert_eq!(theme.entry(PrimitiveKind::Rectangle).fill_color, red);
    assert_eq!(theme.entry(PrimitiveKind::Ellipse).fill_color, Rgba::white());
    assert_eq!(theme.entry(PrimitiveKind::Line), theme.line);
    assert_eq!(theme.entry(PrimitiveKind::Polygon), theme.polygon);
}

#[test]
fn primitive_wrapping_round_trips() {
    let e = Ellipse::default().resolution(9);
    let p = Primitive::from_ellipse(e);
    let back = p.into_ellipse().unwrap();
    assert_eq!(back.resolution, Some(9));
}

#[test]
fn stroke_options_override_the_default() {
    let opts = StrokeOptions {
        weight: units(3),
        join: LineJoin::Round,
        cap: LineCap::Square,
    };
    let theme = Draw::new().theme;
    let drawn = Ellipse::default().stroke_options(opts).into_drawn(&theme).unwrap();
    let stroke = drawn.style.stroke.unwrap();
    assert_eq!(stroke.options, opts);
    // The stroke color was left unset, so the theme supplies it.
    assert_eq!(stroke.color, Rgba::black());
    assert_eq!(StrokeOptions::default().weight, units(1));
}
