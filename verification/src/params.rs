//! The parameters of a draw request.

use vstd::prelude::*;
use vstd::std_specs::convert::FromSpecImpl;
use crate::geometry::Rectangle;

verus! {

/// A pair of whole numbers: a position or an origin in pixels, or a scale in
/// whole multiples.
#[derive(Copy, Clone, Debug, PartialEq, Eq, Structural)]
pub struct Vector {
    pub x: i64,
    pub y: i64,
}

impl Vector {
    /// Creates a new `Vector`.
    pub fn new(x: i64, y: i64) -> (v: Vector)
        ensures
            v == (Vector { x, y }),
    {
        Vector { x, y }
    }
}

/// A colour of four channels, each from 0 (none) to 255 (full).
#[derive(Copy, Clone, Debug, PartialEq, Eq, Structural)]
pub struct Color {
    pub r: u8,
    pub g: u8,
    pub b: u8,
    pub a: u8,
}

/// Opaque white: drawing with it leaves a graphic's own colours as they are.
pub open spec fn opaque_white() -> Color {
    Color { r: 255, g: 255, b: 255, a: 255 }
}

/// Opaque black: the colour of the bars around the letterbox.
pub open spec fn opaque_black() -> Color {
    Color { r: 0, g: 0, b: 0, a: 255 }
}

impl Color {
    /// Creates a colour from its four channels.
    pub fn rgba(r: u8, g: u8, b: u8, a: u8) -> (c: Color)
        ensures
            c == (Color { r, g, b, a }),
    {
        Color { r, g, b, a }
    }

    /// Opaque white.
    pub fn white() -> (c: Color)
        ensures
            c == opaque_white(),
    {
        Color { r: 255, g: 255, b: 255, a: 255 }
    }

    /// Opaque black.
    pub fn black() -> (c: Color)
        ensures
            c == opaque_black(),
    {
        Color { r: 0, g: 0, b: 0, a: 255 }
    }
}

/// The parameters that can be used when drawing.
///
/// The defaults are: position (0, 0), scale (1, 1), origin (0, 0), white,
/// and no clip, which stands for the full image.
#[derive(Copy, Clone, Debug, PartialEq, Eq, Structural)]
pub struct DrawParams {
    pub position: Vector,
    pub scale: Vector,
    pub origin: Vector,
    pub color: Color,
    pub clip: Option<Rectangle>,
}

/// The parameters that draw a graphic as it is, at the origin of the target.
pub open spec fn default_params() -> DrawParams {
    DrawParams {
        position: Vector { x: 0, y: 0 },
        scale: Vector { x: 1, y: 1 },
        origin: Vector { x: 0, y: 0 },
        color: opaque_white(),
        clip: None,
    }
}

impl DrawParams {
    /// Creates a new set of `DrawParams`, all of them at their defaults.
    pub fn new() -> (p: DrawParams)
        ensures
            p == default_params(),
    {
        DrawParams {
            position: Vector::new(0, 0),
            scale: Vector::new(1, 1),
            origin: Vector::new(0, 0),
            color: Color::white(),
            clip: None,
        }
    }

    /// Sets the position that the graphic should be drawn at.
    pub fn position(self, position: Vector) -> (p: DrawParams)
        ensures
            p == (DrawParams { position, ..self }),
    {
        DrawParams { position, ..self }
    }

    /// Sets the scale that the graphic should be drawn at. A negative value
    /// flips the graphic around the origin.
    pub fn scale(self, scale: Vector) -> (p: DrawParams)
        ensures
            p == (DrawParams { scale, ..self }),
    {
        DrawParams { scale, ..self }
    }

    /// Sets the origin of the graphic: the point that position and scale are
    /// relative to.
    pub fn origin(self, origin: Vector) -> (p: DrawParams)
        ensures
            p == (DrawParams { origin, ..self }),
    {
        DrawParams { origin, ..self }
    }

    /// Sets the color to multiply the graphic by.
    pub fn color(self, color: Color) -> (p: DrawParams)
        ensures
            p == (DrawParams { color, ..self }),
    {
        DrawParams { color, ..self }
    }

    /// Sets the region of the graphic to draw.
    pub fn clip(self, clip: Rectangle) -> (p: DrawParams)
        ensures
            p == (DrawParams { clip: Some(clip), ..self }),
    {
        DrawParams { clip: Some(clip), ..self }
    }
}

impl Default for DrawParams {
    fn default() -> (p: DrawParams)
        ensures
            p == default_params(),
    {
        DrawParams::new()
    }
}

impl From<Vector> for DrawParams {
    fn from(position: Vector) -> (p: DrawParams) {
        DrawParams::new().position(position)
    }
}

impl FromSpecImpl<Vector> for DrawParams {
    open spec fn obeys_from_spec() -> bool {
        true
    }

    open spec fn from_spec(position: Vector) -> DrawParams {
        DrawParams { position, ..default_params() }
    }
}

} // verus!
