//! Status LED colors.
//!
//! The indicator LED is driven by PWM hardware outside this crate; here
//! lives only the color vocabulary and its channel levels.

use vstd::prelude::*;

verus! {

/// A status color of the indicator LED.
#[derive(Debug, Clone, Copy, PartialEq, Eq, Structural)]
pub enum Color {
    Red,
    Green,
    Blue,
    Yellow,
    Magenta,
    Teal,
    White,
    Black,
}

/// The full-scale (red, green, blue) levels of a color.
pub open spec fn spec_color_levels(c: Color) -> (u8, u8, u8) {
    match c {
        Color::Red => (0xFFu8, 0u8, 0u8),
        Color::Green => (0u8, 0xFFu8, 0u8),
        Color::Blue => (0u8, 0u8, 0xFFu8),
        Color::Yellow => (0xFFu8, 0xFFu8, 0u8),
        Color::Magenta => (0xFFu8, 0u8, 0xFFu8),
        Color::Teal => (0u8, 0xFFu8, 0xFFu8),
        Color::White => (0xFFu8, 0xFFu8, 0xFFu8),
        Color::Black => (0u8, 0u8, 0u8),
    }
}

impl Color {
    /// The (red, green, blue) channel levels of this color.
    pub fn levels(&self) -> (rgb: (u8, u8, u8))
        ensures
            rgb == spec_color_levels(*self),
    {
        match self {
            Color::Red => (0xFF, 0, 0),
            Color::Green => (0, 0xFF, 0),
            Color::Blue => (0, 0, 0xFF),
            Color::Yellow => (0xFF, 0xFF, 0),
            Color::Magenta => (0xFF, 0, 0xFF),
            Color::Teal => (0, 0xFF, 0xFF),
            Color::White => (0xFF, 0xFF, 0xFF),
            Color::Black => (0, 0, 0),
        }
    }
}

} // verus!
