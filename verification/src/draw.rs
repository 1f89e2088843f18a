//! What a frame is made of: colours, the rectangle descriptor of a sprite,
//! and the commands that a renderer carries out.

use vstd::prelude::*;

verus! {

/// An RGBA colour. Each channel counts thousandths, from 0 to 1000.
#[derive(Clone, Copy, Debug, PartialEq, Eq, Structural)]
pub struct Color {
    pub r: u16,
    pub g: u16,
    pub b: u16,
    pub a: u16,
}

impl Color {
    #[verifier::inline]
    pub open spec fn spec_black() -> Color {
        Color { r: 0, g: 0, b: 0, a: 1000 }
    }

    #[verifier::inline]
    pub open spec fn spec_red() -> Color {
        Color { r: 1000, g: 0, b: 0, a: 1000 }
    }

    #[verifier::inline]
    pub open spec fn spec_light_grey() -> Color {
        Color { r: 800, g: 800, b: 800, a: 1000 }
    }

    #[verifier::when_used_as_spec(spec_black)]
    pub fn black() -> (c: Color)
        ensures
            c == Color::spec_black(),
    {
        Color { r: 0, g: 0, b: 0, a: 1000 }
    }

    #[verifier::when_used_as_spec(spec_red)]
    pub fn red() -> (c: Color)
        ensures
            c == Color::spec_red(),
    {
        Color { r: 1000, g: 0, b: 0, a: 1000 }
    }

    #[verifier::when_used_as_spec(spec_light_grey)]
    pub fn light_grey() -> (c: Color)
        ensures
            c == Color::spec_light_grey(),
    {
        Color { r: 800, g: 800, b: 800, a: 1000 }
    }
}

/// One thing for the renderer to do. Coordinates and sizes are fixed-point,
/// in thousandths, with `(x, y)` the top left corner of a rectangle.
#[derive(Clone, Copy, Debug, PartialEq, Eq, Structural)]
pub enum DrawCommand {
    /// Fill the whole target with one colour.
    Clear(Color),
    /// Reset the stencil buffer to one value.
    ClearStencil(u8),
    /// Fill an axis-aligned rectangle.
    Rectangle { color: Color, x: i64, y: i64, width: i64, height: i64 },
}

/// The visual descriptor of a filled rectangle: its colour. Where it goes
/// and how large it is drawn is decided at each draw.
#[derive(Clone, Copy, Debug, PartialEq, Eq, Structural)]
pub struct Rectangle {
    pub color: Color,
}

impl Rectangle {
    pub fn new(color: Color) -> (shape: Rectangle)
        ensures
            shape == (Rectangle { color }),
    {
        Rectangle { color }
    }

    /// The command that fills `width` by `height` at `(x, y)` in this
    /// rectangle's colour.
    pub fn draw(&self, x: i64, y: i64, width: i64, height: i64) -> (cmd: DrawCommand)
        ensures
            cmd == (DrawCommand::Rectangle { color: self.color, x, y, width, height }),
    {
        DrawCommand::Rectangle { color: self.color, x, y, width, height }
    }
}

} // verus!
