//! Colors: the fixed palette of the display, and colors handed in by the
//! caller, which pass through untouched.

use vstd::prelude::*;

verus! {

/// A color of the display's own palette. The three channels count in 255ths,
/// the opacity in percent.
#[derive(Clone, Copy, Debug, PartialEq, Eq, Structural)]
pub struct Rgba {
    pub red: u8,
    pub green: u8,
    pub blue: u8,
    pub alpha: u8,
}

/// `conrod_core::color::Color`, a color of the surface's own making. Verus
/// sees nothing inside it; the engine only carries such a value from a
/// configuration into a draw command.
#[verifier::external_type_specification]
#[verifier::external_body]
pub struct ExColor(conrod_core::color::Color);

/// What an element is filled with.
#[derive(Clone, Copy, Debug, PartialEq)]
pub enum Paint {
    /// A color of the palette.
    Fixed(Rgba),
    /// A color chosen by the caller.
    Supplied(conrod_core::color::Color),
}

impl Rgba {
    /// The fully opaque color with the given channels.
    pub open spec fn solid(red: u8, green: u8, blue: u8) -> Rgba {
        Rgba { red, green, blue, alpha: 100 }
    }

    /// White at the given opacity.
    pub open spec fn white(alpha: u8) -> Rgba {
        Rgba { red: 255, green: 255, blue: 255, alpha }
    }

    /// Black at the given opacity.
    pub open spec fn black(alpha: u8) -> Rgba {
        Rgba { red: 0, green: 0, blue: 0, alpha }
    }

    /// Exec twin of [`Rgba::solid`].
    pub fn new_solid(red: u8, green: u8, blue: u8) -> (color: Rgba)
        ensures
            color == Rgba::solid(red, green, blue),
    {
        Rgba { red, green, blue, alpha: 100 }
    }

    /// Exec twin of [`Rgba::white`].
    pub fn new_white(alpha: u8) -> (color: Rgba)
        ensures
            color == Rgba::white(alpha),
    {
        Rgba { red: 255, green: 255, blue: 255, alpha }
    }

    /// Exec twin of [`Rgba::black`].
    pub fn new_black(alpha: u8) -> (color: Rgba)
        ensures
            color == Rgba::black(alpha),
    {
        Rgba { red: 0, green: 0, blue: 0, alpha }
    }
}

} // verus!
