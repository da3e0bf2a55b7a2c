//! Colors and strokes that a glyph carries to the renderer.

use vstd::prelude::*;
use crate::fixed::UNIT;

verus! {

/// A color as four premultiplied channels.
#[derive(Clone, Copy, Debug, PartialEq, Eq, Structural)]
pub struct Color {
    pub r: u8,
    pub g: u8,
    pub b: u8,
    pub a: u8,
}

impl Color {
    /// The color with every channel at zero.
    pub open spec fn transparent_spec() -> Color {
        Color { r: 0, g: 0, b: 0, a: 0 }
    }

    /// The fully transparent color.
    #[verifier::when_used_as_spec(transparent_spec)]
    pub fn transparent() -> (c: Color)
        ensures
            c == Color::transparent_spec(),
    {
        Color { r: 0, g: 0, b: 0, a: 0 }
    }

    /// A color from its four premultiplied channels.
    pub fn from_rgba_premultiplied(r: u8, g: u8, b: u8, a: u8) -> (c: Color)
        ensures
            c == (Color { r, g, b, a }),
    {
        Color { r, g, b, a }
    }
}

/// Line width, in fixed-point screen points, and line color.
#[derive(Clone, Copy, Debug, PartialEq, Eq, Structural)]
pub struct Stroke {
    pub width: i64,
    pub color: Color,
}

impl Stroke {
    /// A stroke of the given width and color.
    pub fn new(width: i64, color: Color) -> (s: Stroke)
        ensures
            s == (Stroke { width, color }),
    {
        Stroke { width, color }
    }

    /// The stroke of a new glyph: one point wide and transparent.
    pub open spec fn thin_transparent() -> Stroke {
        Stroke { width: UNIT, color: Color::transparent_spec() }
    }
}

/// Where the outline of a rectangle lies relative to its edge.
#[derive(Clone, Copy, Debug, PartialEq, Eq, Structural)]
pub enum StrokeKind {
    Inside,
    Middle,
    Outside,
}

} // verus!
