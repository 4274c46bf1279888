//! A declarative shape-drawing core.
//!
//! A caller describes a geometric primitive (the representative here is the
//! ellipse) through chained property calls — position, orientation,
//! dimensions, color, stroke — and finalizes it against a per-frame draw
//! context. Finalization resolves unset properties from the active theme and
//! tessellates the shape into a vertex/index mesh ready for a rendering
//! backend.
//!
//! All geometry is carried by a fixed-point scalar so that every coordinate
//! a mesh holds is pinned exactly by the contracts.

pub mod scalar;
pub mod trig;
pub mod color;
pub mod stroke;
pub mod properties;
pub mod mesh;
pub mod polygon;
pub mod theme;
pub mod ellipse;
pub mod draw;
