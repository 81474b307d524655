//! Display styling for the renderer: fill rule and colors.
//!
//! Styling is a pure function of the selection flags — nothing here is
//! persisted state.  The renderer consumes these values together with the
//! generated path.

use vstd::prelude::*;

verus! {

/// An sRGB color with alpha, 8 bits per channel.
#[derive(Clone, Copy, PartialEq, Eq, Structural, Debug)]
pub struct Rgba {
    pub r: u8,
    pub g: u8,
    pub b: u8,
    pub a: u8,
}

/// The fill rule a filled shape is rasterized with.
#[derive(Clone, Copy, PartialEq, Eq, Structural, Debug)]
pub enum FillRule {
    EvenOdd,
    NonZero,
}

pub open spec fn dark_gray() -> Rgba {
    Rgba { r: 169, g: 169, b: 169, a: 255 }
}

pub open spec fn dark_red() -> Rgba {
    Rgba { r: 139, g: 0, b: 0, a: 255 }
}

pub open spec fn red() -> Rgba {
    Rgba { r: 255, g: 0, b: 0, a: 255 }
}

pub open spec fn white() -> Rgba {
    Rgba { r: 255, g: 255, b: 255, a: 255 }
}

/// Spline interiors are filled with the even-odd rule.
pub fn spline_fill_rule() -> (r: FillRule)
    ensures
        r == FillRule::EvenOdd,
{
    FillRule::EvenOdd
}

/// The fill color of a spline's interior.
pub fn spline_fill_color() -> (c: Rgba)
    ensures
        c == dark_gray(),
{
    Rgba { r: 169, g: 169, b: 169, a: 255 }
}

/// The stroke color of a spline's outline.
pub fn spline_stroke_color() -> (c: Rgba)
    ensures
        c == white(),
{
    Rgba { r: 255, g: 255, b: 255, a: 255 }
}

/// The fill color of a handle dot: highlighted while selected.
pub fn handle_fill_color(selected: bool) -> (c: Rgba)
    ensures
        c == if selected {
            dark_red()
        } else {
            dark_gray()
        },
{
    if selected {
        Rgba { r: 139, g: 0, b: 0, a: 255 }
    } else {
        Rgba { r: 169, g: 169, b: 169, a: 255 }
    }
}

/// The stroke color of a handle dot: highlighted while selected.
pub fn handle_stroke_color(selected: bool) -> (c: Rgba)
    ensures
        c == if selected {
            red()
        } else {
            white()
        },
{
    if selected {
        Rgba { r: 255, g: 0, b: 0, a: 255 }
    } else {
        Rgba { r: 255, g: 255, b: 255, a: 255 }
    }
}

/// The color of a control point's dot and of its tangent line to the
/// owning handle: highlighted while selected.
pub fn control_point_color(selected: bool) -> (c: Rgba)
    ensures
        c == if selected {
            red()
        } else {
            white()
        },
{
    if selected {
        Rgba { r: 255, g: 0, b: 0, a: 255 }
    } else {
        Rgba { r: 255, g: 255, b: 255, a: 255 }
    }
}

} // verus!
