//! Linear RGBA color with four fixed-point channels: 0 is none, 65535 is
//! full intensity. A primitive whose color is left unset resolves it from
//! the theme at draw time.

use vstd::prelude::*;

verus! {

/// Full intensity of one color channel.
pub const CHANNEL_MAX: u16 = 65535;

/// A linear RGBA value; each channel covers `[0, 1]` in 1/65535th steps.
#[derive(Clone, Copy, Debug, PartialEq, Eq, Structural)]
pub struct Rgba {
    pub red: u16,
    pub green: u16,
    pub blue: u16,
    pub alpha: u16,
}

impl Rgba {
    /// A color from its four channels.
    pub fn new(red: u16, green: u16, blue: u16, alpha: u16) -> (r: Rgba)
        ensures
            r == (Rgba { red, green, blue, alpha }),
    {
        Rgba { red, green, blue, alpha }
    }

    /// Opaque black.
    pub fn black() -> (r: Rgba)
        ensures
            r == (Rgba { red: 0, green: 0, blue: 0, alpha: CHANNEL_MAX }),
    {
        Rgba { red: 0, green: 0, blue: 0, alpha: CHANNEL_MAX }
    }

    /// Opaque white.
    pub fn white() -> (r: Rgba)
        ensures
            r == (Rgba {
                red: CHANNEL_MAX,
                green: CHANNEL_MAX,
                blue: CHANNEL_MAX,
                alpha: CHANNEL_MAX,
            }),
    {
        Rgba { red: CHANNEL_MAX, green: CHANNEL_MAX, blue: CHANNEL_MAX, alpha: CHANNEL_MAX }
    }
}

} // verus!
