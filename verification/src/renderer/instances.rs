use vstd::prelude::*;

use super::render_commands::{LineDescription, TwoDDescription};
use crate::{Colour, Point2, Scalar, Vector2};

verus! {

/// The type of one input of a vertex shader.
#[derive(Debug, Clone, Copy, PartialEq, Eq, Structural)]
pub enum VertexFormat {
    /// One single-precision number.
    Float32,
    /// Two single-precision numbers.
    Float32x2,
    /// Four single-precision numbers.
    Float32x4,
    /// One unsigned integer of 32 bits.
    Uint32,
}

impl VertexFormat {
    /// The number of bytes that a value of this format takes.
    pub open spec fn bytes(self) -> u64 {
        match self {
            VertexFormat::Float32 => 4,
            VertexFormat::Float32x2 => 8,
            VertexFormat::Float32x4 => 16,
            VertexFormat::Uint32 => 4,
        }
    }

    pub fn size(&self) -> (bytes: u64)
        ensures
            bytes == self.bytes(),
    {
        match self {
            VertexFormat::Float32 => 4,
            VertexFormat::Float32x2 => 8,
            VertexFormat::Float32x4 => 16,
            VertexFormat::Uint32 => 4,
        }
    }
}

/// How often the GPU steps to the next record of a buffer.
#[derive(Debug, Clone, Copy, PartialEq, Eq, Structural)]
pub enum VertexStepMode {
    /// Once for each vertex.
    Vertex,
    /// Once for each instance.
    Instance,
}

/// One field of a record, as the vertex shader takes it in.
#[derive(Debug, Clone, Copy, PartialEq, Eq, Structural)]
pub struct VertexAttribute {
    pub format: VertexFormat,
    /// Where the field starts in the record, in bytes.
    pub offset: u64,
    /// The input of the shader that takes the field.
    pub shader_location: u32,
}

/// How the records of a buffer are laid out.
#[derive(Debug, PartialEq, Eq)]
pub struct VertexBufferLayout {
    /// The number of bytes from one record to the next.
    pub array_stride: u64,
    pub step_mode: VertexStepMode,
    pub attributes: Vec<VertexAttribute>,
}

/// The number of bytes that the fields `attributes` take together.
pub open spec fn bytes_of(attributes: Seq<VertexAttribute>) -> int
    decreases attributes.len(),
{
    if attributes.len() == 0 {
        0
    } else {
        bytes_of(attributes.drop_last()) + attributes.last().format.bytes()
    }
}

/// Whether the fields `attributes` fill a record of `stride` bytes in
/// their order, leaving no gap, and go to the inputs of the shader from
/// `first_location` on, one after the other.
pub open spec fn packed(attributes: Seq<VertexAttribute>, stride: u64, first_location: u32) -> bool {
    &&& stride == bytes_of(attributes)
    &&& forall|i: int|
        0 <= i < attributes.len() ==> (#[trigger] attributes[i]).offset == bytes_of(
            attributes.take(i),
        ) && attributes[i].shader_location == first_location + i
}

/// The first input of the shaders that takes a field of an instance: the
/// inputs before it take the fields of the vertex.
pub const FIRST_INSTANCE_LOCATION: u32 = 4;

/// One line segment, as the line pipeline draws it.
#[derive(Debug, Clone, Copy, PartialEq, Eq)]
pub struct LineInstance {
    pub position_1: Point2,
    pub position_2: Point2,
    pub line_colour: Colour,
    pub line_width: Scalar,
}

impl LineInstance {
    /// The record of the line that `desc` describes.
    pub open spec fn of(desc: LineDescription) -> LineInstance {
        LineInstance {
            position_1: desc.start,
            position_2: desc.end,
            line_colour: desc.colour,
            line_width: desc.width,
        }
    }

    /// The fields of a line instance, as the GPU reads them: the two end
    /// points, the colour with single-precision channels, and the width.
    pub open spec fn attributes() -> Seq<VertexAttribute> {
        seq![
            VertexAttribute { format: VertexFormat::Float32x2, offset: 0, shader_location: 4 },
            VertexAttribute { format: VertexFormat::Float32x2, offset: 8, shader_location: 5 },
            VertexAttribute { format: VertexFormat::Float32x4, offset: 16, shader_location: 6 },
            VertexAttribute { format: VertexFormat::Float32, offset: 32, shader_location: 7 },
        ]
    }

    /// The number of bytes that a line instance takes on the GPU.
    pub open spec fn stride() -> u64 {
        36
    }

    /// The fields of a line instance fill its record without a gap.
    pub proof fn lemma_packed()
        ensures
            packed(Self::attributes(), Self::stride(), FIRST_INSTANCE_LOCATION),
    {
        let all = Self::attributes();
        reveal_with_fuel(bytes_of, 5);
        assert(all.take(0) =~= Seq::<VertexAttribute>::empty());
        assert(all.take(1) =~= seq![all[0]]);
        assert(all.take(2) =~= seq![all[0], all[1]]);
        assert(all.take(3) =~= seq![all[0], all[1], all[2]]);
        assert(all.take(3).drop_last() =~= all.take(2));
        assert(all.take(2).drop_last() =~= all.take(1));
        assert(all.take(1).drop_last() =~= all.take(0));
        assert(all.drop_last() =~= all.take(3));
    }

    /// How line instances are laid out in the instance buffer.
    pub fn desc() -> (layout: VertexBufferLayout)
        ensures
            layout.array_stride == Self::stride(),
            layout.step_mode == VertexStepMode::Instance,
            layout.attributes@ == Self::attributes(),
    {
        let mut attributes: Vec<VertexAttribute> = Vec::new();
        attributes.push(
            VertexAttribute { format: VertexFormat::Float32x2, offset: 0, shader_location: 4 },
        );
        attributes.push(
            VertexAttribute { format: VertexFormat::Float32x2, offset: 8, shader_location: 5 },
        );
        attributes.push(
            VertexAttribute { format: VertexFormat::Float32x4, offset: 16, shader_location: 6 },
        );
        attributes.push(
            VertexAttribute { format: VertexFormat::Float32, offset: 32, shader_location: 7 },
        );
        assert(attributes@ =~= Self::attributes());
        VertexBufferLayout { array_stride: 36, step_mode: VertexStepMode::Instance, attributes }
    }

    pub fn from_description(desc: &LineDescription) -> (instance: LineInstance)
        ensures
            instance == LineInstance::of(*desc),
    {
        LineInstance {
            position_1: desc.start,
            position_2: desc.end,
            line_colour: desc.colour,
            line_width: desc.width,
        }
    }
}

/// One two-dimensional primitive, as the shape pipeline draws it.
#[derive(Debug, Clone, Copy, PartialEq, Eq)]
pub struct TwoDInstance {
    pub position: Point2,
    pub size: Vector2,
    pub colour: Colour,
    /// The window into the backing texture, in texels: left, top, right,
    /// bottom. All zero where the primitive has no texture.
    pub texture: [u32; 4],
    pub texture_opacity: Scalar,
    pub line_width: Scalar,
    pub corner_radius: Scalar,
    pub rotation: Scalar,
    pub shape: u32,
}

impl TwoDInstance {
    /// The record of the primitive that `desc` describes, with the corners
    /// of its texture window.
    pub open spec fn of(desc: TwoDDescription, texture: [u32; 4]) -> TwoDInstance {
        TwoDInstance {
            position: desc.position,
            size: desc.size,
            colour: desc.colour,
            texture,
            texture_opacity: desc.opacity,
            line_width: desc.line_width,
            corner_radius: desc.corner_radius,
            rotation: desc.rotation,
            shape: desc.shape.tag(),
        }
    }

    /// The fields of a shape instance, as the GPU reads them: position,
    /// size, the colour with single-precision channels, the corners of the
    /// texture window, the opacity of the texture, the line width, the
    /// corner radius, the rotation, and the tag of the shape.
    pub open spec fn attributes() -> Seq<VertexAttribute> {
        seq![
            VertexAttribute { format: VertexFormat::Float32x2, offset: 0, shader_location: 4 },
            VertexAttribute { format: VertexFormat::Float32x2, offset: 8, shader_location: 5 },
            VertexAttribute { format: VertexFormat::Float32x4, offset: 16, shader_location: 6 },
            VertexAttribute { format: VertexFormat::Float32x4, offset: 32, shader_location: 7 },
            VertexAttribute { format: VertexFormat::Float32, offset: 48, shader_location: 8 },
            VertexAttribute { format: VertexFormat::Float32, offset: 52, shader_location: 9 },
            VertexAttribute { format: VertexFormat::Float32, offset: 56, shader_location: 10 },
            VertexAttribute { format: VertexFormat::Float32, offset: 60, shader_location: 11 },
            VertexAttribute { format: VertexFormat::Uint32, offset: 64, shader_location: 12 },
        ]
    }

    /// The number of bytes that a shape instance takes on the GPU.
    pub open spec fn stride() -> u64 {
        68
    }

    /// The fields of a shape instance fill its record without a gap.
    pub proof fn lemma_packed()
        ensures
            packed(Self::attributes(), Self::stride(), FIRST_INSTANCE_LOCATION),
    {
        let all = Self::attributes();
        reveal_with_fuel(bytes_of, 10);
        assert(all.take(0) =~= Seq::<VertexAttribute>::empty());
        assert(all.take(1).drop_last() =~= all.take(0));
        assert(all.take(2).drop_last() =~= all.take(1));
        assert(all.take(3).drop_last() =~= all.take(2));
        assert(all.take(4).drop_last() =~= all.take(3));
        assert(all.take(5).drop_last() =~= all.take(4));
        assert(all.take(6).drop_last() =~= all.take(5));
        assert(all.take(7).drop_last() =~= all.take(6));
        assert(all.take(8).drop_last() =~= all.take(7));
        assert(all.drop_last() =~= all.take(8));
        assert(bytes_of(all.take(1)) == 8);
        assert(bytes_of(all.take(2)) == 16);
        assert(bytes_of(all.take(3)) == 32);
        assert(bytes_of(all.take(4)) == 48);
        assert(bytes_of(all.take(5)) == 52);
        assert(bytes_of(all.take(6)) == 56);
        assert(bytes_of(all.take(7)) == 60);
        assert(bytes_of(all.take(8)) == 64);
    }

    /// How shape instances are laid out in the instance buffer.
    pub fn desc() -> (layout: VertexBufferLayout)
        ensures
            layout.array_stride == Self::stride(),
            layout.step_mode == VertexStepMode::Instance,
            layout.attributes@ == Self::attributes(),
    {
        let mut attributes: Vec<VertexAttribute> = Vec::new();
        attributes.push(
            VertexAttribute { format: VertexFormat::Float32x2, offset: 0, shader_location: 4 },
        );
        attributes.push(
            VertexAttribute { format: VertexFormat::Float32x2, offset: 8, shader_location: 5 },
        );
        attributes.push(
            VertexAttribute { format: VertexFormat::Float32x4, offset: 16, shader_location: 6 },
        );
        attributes.push(
            VertexAttribute { format: VertexFormat::Float32x4, offset: 32, shader_location: 7 },
        );
        attributes.push(
            VertexAttribute { format: VertexFormat::Float32, offset: 48, shader_location: 8 },
        );
        attributes.push(
            VertexAttribute { format: VertexFormat::Float32, offset: 52, shader_location: 9 },
        );
        attributes.push(
            VertexAttribute { format: VertexFormat::Float32, offset: 56, shader_location: 10 },
        );
        attributes.push(
            VertexAttribute { format: VertexFormat::Float32, offset: 60, shader_location: 11 },
        );
        attributes.push(
            VertexAttribute { format: VertexFormat::Uint32, offset: 64, shader_location: 12 },
        );
        assert(attributes@ =~= Self::attributes());
        VertexBufferLayout { array_stride: 68, step_mode: VertexStepMode::Instance, attributes }
    }

    pub fn from_description(desc: &TwoDDescription, texture: [u32; 4]) -> (instance: TwoDInstance)
        ensures
            instance == TwoDInstance::of(*desc, texture),
    {
        TwoDInstance {
            position: desc.position,
            size: desc.size,
            colour: desc.colour,
            texture,
            texture_opacity: desc.opacity,
            line_width: desc.line_width,
            corner_radius: desc.corner_radius,
            rotation: desc.rotation,
            shape: desc.shape.to_int(),
        }
    }
}

/// One three-dimensional instance. The geometry pipeline does not read
/// anything per instance yet.
#[derive(Debug, Clone, Copy, PartialEq, Eq, Structural)]
pub struct ThreeDInstance {}

} // verus!
