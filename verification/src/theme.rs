//! The theme: default styling per primitive kind, consulted at resolution
//! time only for properties the caller left unset. Read-only during a
//! frame; a frame may swap the whole theme between frames.

use vstd::prelude::*;
use crate::color::Rgba;
use crate::color::CHANNEL_MAX;

verus! {

/// The closed set of primitive kinds a theme styles.
#[derive(Clone, Copy, Debug, PartialEq, Eq, Structural)]
pub enum PrimitiveKind {
    Ellipse,
    Rectangle,
    Line,
    Polygon,
}

/// Default styling for one primitive kind: the fill color used when none
/// was set, the stroke color used when a stroke is drawn without an
/// explicit color, and whether an outline is drawn even when the caller
/// asked for none.
#[derive(Clone, Copy, Debug, PartialEq, Eq, Structural)]
pub struct ThemeEntry {
    pub fill_color: Rgba,
    pub stroke_color: Rgba,
    pub stroke_by_default: bool,
}

/// Default styling for every primitive kind.
#[derive(Clone, Copy, Debug, PartialEq, Eq, Structural)]
pub struct Theme {
    pub ellipse: ThemeEntry,
    pub rectangle: ThemeEntry,
    pub line: ThemeEntry,
    pub polygon: ThemeEntry,
}

/// The entry a theme holds for a primitive kind.
pub open spec fn entry_of(theme: Theme, kind: PrimitiveKind) -> ThemeEntry {
    match kind {
        PrimitiveKind::Ellipse => theme.ellipse,
        PrimitiveKind::Rectangle => theme.rectangle,
        PrimitiveKind::Line => theme.line,
        PrimitiveKind::Polygon => theme.polygon,
    }
}

/// The entry every kind of the default theme carries: opaque white fill,
/// opaque black stroke color, no outline unless asked for.
pub open spec fn is_plain_entry(e: ThemeEntry) -> bool {
    e == (ThemeEntry {
        fill_color: Rgba {
            red: CHANNEL_MAX,
            green: CHANNEL_MAX,
            blue: CHANNEL_MAX,
            alpha: CHANNEL_MAX,
        },
        stroke_color: Rgba { red: 0, green: 0, blue: 0, alpha: CHANNEL_MAX },
        stroke_by_default: false,
    })
}

impl Theme {
    /// The entry for one primitive kind.
    pub fn entry(&self, kind: PrimitiveKind) -> (r: ThemeEntry)
        ensures
            r == entry_of(*self, kind),
    {
        match kind {
            PrimitiveKind::Ellipse => self.ellipse,
            PrimitiveKind::Rectangle => self.rectangle,
            PrimitiveKind::Line => self.line,
            PrimitiveKind::Polygon => self.polygon,
        }
    }
}

impl Default for Theme {
    /// White fill, black stroke color, no outline by default, for every
    /// primitive kind.
    fn default() -> (r: Theme)
        ensures
            is_plain_entry(r.ellipse),
            is_plain_entry(r.rectangle),
            is_plain_entry(r.line),
            is_plain_entry(r.polygon),
    {
        let entry = ThemeEntry {
            fill_color: Rgba::white(),
            stroke_color: Rgba::black(),
            stroke_by_default: false,
        };
        Theme { ellipse: entry, rectangle: entry, line: entry, polygon: entry }
    }
}

} // verus!
