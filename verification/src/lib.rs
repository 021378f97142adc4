//! A retained-frame 2D rendering front end.
//!
//! Draw commands issued during a frame are turned into per-instance records,
//! grouped into as few batches as draw order and texture changes allow, and
//! then laid out as a plan of buffer uploads and draw calls that respects the
//! fixed capacity of the instance buffers on the GPU.
//!
//! Numbers that the GPU reads as IEEE-754 values are carried through this
//! crate as bit patterns: the crate stores and forwards them and never
//! computes with them.

use vstd::prelude::*;

pub mod material;
pub mod renderer;
pub mod setup;
pub mod start;

pub use material::TextureManager;
pub use renderer::{
    LineDescription, RenderCommand, Renderer, RendererInstance, TwoDDescription, TwoDTypes,
};

verus! {

/// Identifies a geometry resource.
pub type GeometryHandle = usize;

/// Identifies a renderer.
pub type RendererHandle = usize;

/// Identifies a sub-texture: a rectangular window into a backing texture.
pub type TextureHandle = usize;

/// The bit pattern of an IEEE-754 single-precision number.
pub type Scalar = u32;

/// The bit pattern of an IEEE-754 double-precision number.
pub type Channel = u64;

/// The handle that stands for "no texture". It is never given to a sub-texture.
pub const NULL_TEXTURE: TextureHandle = 0;

/// The single-precision bit pattern of zero.
pub const SCALAR_ZERO: Scalar = 0;

/// The single-precision bit pattern of one.
pub const SCALAR_ONE: Scalar = 0x3F80_0000;

/// An RGBA colour with double-precision channels.
#[derive(Debug, Clone, Copy, PartialEq, Eq, Structural)]
pub struct Colour {
    pub r: Channel,
    pub g: Channel,
    pub b: Channel,
    pub a: Channel,
}

impl Colour {
    /// Black with zero alpha: every channel is zero.
    pub fn transparent() -> (c: Colour)
        ensures
            c == (Colour { r: 0, g: 0, b: 0, a: 0 }),
    {
        Colour { r: 0, g: 0, b: 0, a: 0 }
    }
}

/// A position in two dimensions.
#[derive(Debug, Clone, Copy, PartialEq, Eq, Structural)]
pub struct Point2 {
    pub x: Scalar,
    pub y: Scalar,
}

impl Point2 {
    pub fn new(x: Scalar, y: Scalar) -> (p: Point2)
        ensures
            p == (Point2 { x, y }),
    {
        Point2 { x, y }
    }
}

/// A displacement or an extent in two dimensions.
#[derive(Debug, Clone, Copy, PartialEq, Eq, Structural)]
pub struct Vector2 {
    pub x: Scalar,
    pub y: Scalar,
}

impl Vector2 {
    pub fn new(x: Scalar, y: Scalar) -> (v: Vector2)
        ensures
            v == (Vector2 { x, y }),
    {
        Vector2 { x, y }
    }
}

/// The size of a window, in pixels.
#[derive(Debug, Clone, Copy, PartialEq, Eq, Structural)]
pub struct WindowSize {
    pub width: u32,
    pub height: u32,
}

/// An asset that is either waiting to be sent to the GPU or resident there.
///
/// An asset starts out `Unprepared` and becomes `Loaded` once; it never goes
/// back.
#[derive(Debug)]
pub enum AssetHolder<T, P> {
    Unprepared(P),
    Loaded(T),
}

} // verus!
