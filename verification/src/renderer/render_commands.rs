use vstd::prelude::*;

use crate::{Colour, Point2, Scalar, TextureHandle, Vector2, SCALAR_ONE, SCALAR_ZERO};

verus! {

/// A draw command as the application issues it. `S` is the text section
/// that the text pipeline lays out; this crate only stores it.
pub enum RenderCommand<S> {
    Clear(Colour),
    DrawLine(LineDescription),
    Draw2D(TwoDDescription),
    DrawText(S),
}

/// A line segment to draw.
#[derive(Debug, Clone, Copy, PartialEq, Eq, Structural)]
pub struct LineDescription {
    pub start: Point2,
    pub end: Point2,
    pub width: Scalar,
    pub colour: Colour,
}

/// The kinds of two-dimensional primitives the shape pipeline can draw.
#[derive(Debug, Clone, Copy, PartialEq, Eq, Structural)]
pub enum TwoDTypes {
    Rectangle,
    Circle,
    Triangle,
    Hexagon,
}

impl TwoDTypes {
    /// The tag by which the shader tells the primitives apart.
    pub open spec fn tag(self) -> u32 {
        match self {
            TwoDTypes::Rectangle => 1,
            TwoDTypes::Circle => 2,
            TwoDTypes::Triangle => 3,
            TwoDTypes::Hexagon => 4,
        }
    }

    pub fn to_int(&self) -> (tag: u32)
        ensures
            tag == self.tag(),
    {
        match self {
            TwoDTypes::Rectangle => 1,
            TwoDTypes::Circle => 2,
            TwoDTypes::Triangle => 3,
            TwoDTypes::Hexagon => 4,
        }
    }
}

/// A two-dimensional primitive to draw.
#[derive(Debug, Clone, Copy, PartialEq, Eq, Structural)]
pub struct TwoDDescription {
    pub position: Point2,
    pub size: Vector2,
    pub colour: Colour,
    pub texture: Option<TextureHandle>,
    pub opacity: Scalar,
    pub line_width: Scalar,
    pub corner_radius: Scalar,
    pub rotation: Scalar,
    pub shape: TwoDTypes,
}

impl TwoDDescription {
    /// The description to start from: a transparent, untextured rectangle of
    /// no size at the origin, fully opaque where a texture is given.
    pub open spec fn initial() -> TwoDDescription {
        TwoDDescription {
            position: Point2 { x: SCALAR_ZERO, y: SCALAR_ZERO },
            size: Vector2 { x: SCALAR_ZERO, y: SCALAR_ZERO },
            colour: Colour { r: 0, g: 0, b: 0, a: 0 },
            texture: None,
            opacity: SCALAR_ONE,
            line_width: SCALAR_ZERO,
            corner_radius: SCALAR_ZERO,
            rotation: SCALAR_ZERO,
            shape: TwoDTypes::Rectangle,
        }
    }

    pub fn default() -> (description: Self)
        ensures
            description == Self::initial(),
    {
        Self {
            position: Point2::new(SCALAR_ZERO, SCALAR_ZERO),
            size: Vector2::new(SCALAR_ZERO, SCALAR_ZERO),
            colour: Colour::transparent(),
            texture: None,
            opacity: SCALAR_ONE,
            line_width: SCALAR_ZERO,
            corner_radius: SCALAR_ZERO,
            rotation: SCALAR_ZERO,
            shape: TwoDTypes::Rectangle,
        }
    }
}

} // verus!
