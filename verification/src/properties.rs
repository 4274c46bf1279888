//! Independent property records a primitive composes: position,
//! orientation and dimensions. Each field is optional; an unset field is
//! resolved to a default at draw time. Setting a property always fully
//! overwrites its previous value (last-write-wins).

use vstd::prelude::*;
use crate::scalar::Scalar;

verus! {

/// Optional translation of a primitive from the origin.
#[derive(Clone, Copy, Debug, PartialEq, Eq)]
pub struct Position {
    pub x: Option<Scalar>,
    pub y: Option<Scalar>,
    pub z: Option<Scalar>,
}

/// True of a position with every component unset.
pub open spec fn position_unset(p: Position) -> bool {
    p.x is None && p.y is None && p.z is None
}

impl Position {
    /// A position with every component unset.
    pub fn unset() -> (r: Position)
        ensures
            position_unset(r),
            r == (Position { x: None, y: None, z: None }),
    {
        Position { x: None, y: None, z: None }
    }
}

/// Optional rotation of a primitive about the z axis, in radian scalars.
#[derive(Clone, Copy, Debug, PartialEq, Eq)]
pub struct Orientation {
    pub rotation: Option<Scalar>,
}

/// True of an orientation left unset.
pub open spec fn orientation_unset(o: Orientation) -> bool {
    o.rotation is None
}

impl Orientation {
    /// An orientation left unset.
    pub fn unset() -> (r: Orientation)
        ensures
            orientation_unset(r),
            r == (Orientation { rotation: None }),
    {
        Orientation { rotation: None }
    }
}

/// Optional extent of a primitive along each axis. Two-dimensional
/// primitives reject a set `z` (depth) at resolution time.
#[derive(Clone, Copy, Debug, PartialEq, Eq)]
pub struct Dimensions {
    pub x: Option<Scalar>,
    pub y: Option<Scalar>,
    pub z: Option<Scalar>,
}

/// True of dimensions with every extent unset.
pub open spec fn dimensions_unset(d: Dimensions) -> bool {
    d.x is None && d.y is None && d.z is None
}

impl Dimensions {
    /// Dimensions with every extent unset.
    pub fn unset() -> (r: Dimensions)
        ensures
            dimensions_unset(r),
            r == (Dimensions { x: None, y: None, z: None }),
    {
        Dimensions { x: None, y: None, z: None }
    }
}

} // verus!
