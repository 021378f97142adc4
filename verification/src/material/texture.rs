use vstd::prelude::*;

use super::InternalHandle;

verus! {

/// The pixels of a texture that has not been sent to the GPU yet.
#[derive(Debug)]
pub struct RawTextureData {
    pub width: u32,
    pub height: u32,
    pub data: Vec<u8>,
}

/// A rectangular window into a backing texture, in texels.
#[derive(Debug, Clone, Copy, PartialEq, Eq)]
pub struct SubTexture {
    pub texture: InternalHandle,
    pub texture_position: [u32; 2],
    pub texture_size: [u32; 2],
}

impl SubTexture {
    /// The window lies inside the parent window `self`: neither axis runs
    /// past the parent's recorded size.
    pub open spec fn holds(self, pos_x: u32, pos_y: u32, width: u32, height: u32) -> bool {
        &&& pos_x + width <= self.texture_size[0]
        &&& pos_y + height <= self.texture_size[1]
    }

    /// The window `(pos_x, pos_y, width, height)` of the window `self`: the
    /// same backing texture, the offsets added up.
    pub open spec fn window(self, pos_x: u32, pos_y: u32, width: u32, height: u32) -> SubTexture {
        SubTexture {
            texture: self.texture,
            texture_position: [
                (self.texture_position[0] + pos_x) as u32,
                (self.texture_position[1] + pos_y) as u32,
            ],
            texture_size: [width, height],
        }
    }

    /// Offset plus size fits the coordinate type on both axes.
    pub open spec fn bounded(self) -> bool {
        &&& self.texture_position[0] + self.texture_size[0] <= u32::MAX
        &&& self.texture_position[1] + self.texture_size[1] <= u32::MAX
    }

    /// The corners of the window: left, top, right, bottom.
    pub open spec fn tl_br(self) -> [u32; 4] {
        [
            self.texture_position[0],
            self.texture_position[1],
            (self.texture_position[0] + self.texture_size[0]) as u32,
            (self.texture_position[1] + self.texture_size[1]) as u32,
        ]
    }
}

/// A window that a parent window holds lies inside the parent, in the same
/// backing texture, and its far corner fits the coordinate type where the
/// parent's does.
pub proof fn lemma_window_lies_inside(
    parent: SubTexture,
    pos_x: u32,
    pos_y: u32,
    width: u32,
    height: u32,
)
    requires
        parent.bounded(),
        parent.holds(pos_x, pos_y, width, height),
    ensures
        ({
            let inner = parent.window(pos_x, pos_y, width, height);
            &&& inner.bounded()
            &&& inner.texture == parent.texture
            &&& inner.texture_size == [width, height]
            &&& inner.texture_position[0] == parent.texture_position[0] + pos_x
            &&& inner.texture_position[1] == parent.texture_position[1] + pos_y
            &&& inner.texture_position[0] + width <= parent.texture_position[0]
                + parent.texture_size[0]
            &&& inner.texture_position[1] + height <= parent.texture_position[1]
                + parent.texture_size[1]
        }),
{
}

/// A window of a window is a window of the parent: the offsets add up.
pub proof fn lemma_windows_compose(
    parent: SubTexture,
    first: (u32, u32, u32, u32),
    second: (u32, u32, u32, u32),
)
    requires
        parent.bounded(),
        parent.holds(first.0, first.1, first.2, first.3),
        parent.window(first.0, first.1, first.2, first.3).holds(
            second.0,
            second.1,
            second.2,
            second.3,
        ),
    ensures
        first.0 + second.0 <= u32::MAX,
        first.1 + second.1 <= u32::MAX,
        parent.holds(
            (first.0 + second.0) as u32,
            (first.1 + second.1) as u32,
            second.2,
            second.3,
        ),
        parent.window(first.0, first.1, first.2, first.3).window(
            second.0,
            second.1,
            second.2,
            second.3,
        ) == parent.window(
            (first.0 + second.0) as u32,
            (first.1 + second.1) as u32,
            second.2,
            second.3,
        ),
{
    let inner = parent.window(first.0, first.1, first.2, first.3);
    let a = inner.window(second.0, second.1, second.2, second.3);
    let b = parent.window(
        (first.0 + second.0) as u32,
        (first.1 + second.1) as u32,
        second.2,
        second.3,
    );
    assert(a.texture_position =~= b.texture_position);
    assert(a.texture_size =~= b.texture_size);
}

/// A backing texture whose pixels are to be sent to the GPU.
#[derive(Debug)]
pub struct TextureUpload {
    pub texture: InternalHandle,
    pub raw: RawTextureData,
}

/// The size of a texture on the GPU.
#[derive(Debug, Clone, Copy, PartialEq, Eq, Structural)]
pub struct Extent3d {
    pub width: u32,
    pub height: u32,
    pub depth_or_array_layers: u32,
}

/// A texture that is resident on the GPU, as far as this crate needs to know
/// it: by its extent.
#[derive(Debug, Clone, Copy, PartialEq, Eq, Structural)]
pub struct Texture {
    pub texture_extent: Extent3d,
}

impl Texture {
    pub fn new(width: u32, height: u32) -> (t: Texture)
        ensures
            t == (Texture { texture_extent: Extent3d { width, height, depth_or_array_layers: 1 } }),
    {
        Texture { texture_extent: Extent3d { width, height, depth_or_array_layers: 1 } }
    }

    pub fn get_size(&self) -> (size: (u32, u32))
        ensures
            size == (self.texture_extent.width, self.texture_extent.height),
    {
        (self.texture_extent.width, self.texture_extent.height)
    }

    pub fn get_extent(&self) -> (extent: Extent3d)
        ensures
            extent == self.texture_extent,
    {
        self.texture_extent
    }
}

} // verus!
