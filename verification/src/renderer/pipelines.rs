use vstd::prelude::*;

use crate::material::manager::INITIAL_TEXTURE_SIZE;
use crate::material::InternalHandle;

verus! {

/// What the frame executor has to know of the pipelines on the GPU: how
/// large the texture slot of the shape pipeline is, and which backing
/// texture was last copied into it.
#[derive(Debug, Clone, Copy, PartialEq, Eq)]
pub struct PipelineManager {
    /// Width and height of the texture slot of the shape pipeline.
    pub texture_size: (u32, u32),
    /// The backing texture whose pixels the slot holds, if any.
    pub bound_texture: Option<InternalHandle>,
}

impl PipelineManager {
    pub fn new() -> (manager: Self)
        ensures
            manager == (PipelineManager {
                texture_size: (INITIAL_TEXTURE_SIZE, INITIAL_TEXTURE_SIZE),
                bound_texture: None,
            }),
    {
        PipelineManager {
            texture_size: (INITIAL_TEXTURE_SIZE, INITIAL_TEXTURE_SIZE),
            bound_texture: None,
        }
    }

    /// Whether a slot of `self`'s size is too small for `required`.
    pub open spec fn outgrown_by(self, required: (u32, u32)) -> bool {
        required.0 > self.texture_size.0 || required.1 > self.texture_size.1
    }

    /// The manager once its slot holds `required`: unchanged where the slot
    /// is large enough, else with a new slot of exactly that size, which
    /// holds no texture.
    pub open spec fn sized_for(self, required: (u32, u32)) -> PipelineManager {
        if self.outgrown_by(required) {
            PipelineManager { texture_size: required, bound_texture: None }
        } else {
            self
        }
    }

    /// Makes sure the texture slot holds `buffer_dimensions_required`, and
    /// says whether the slot has to be created anew for that.
    pub fn prepare_buffers(&mut self, buffer_dimensions_required: (u32, u32)) -> (recreate: bool)
        ensures
            recreate == old(self).outgrown_by(buffer_dimensions_required),
            *final(self) == old(self).sized_for(buffer_dimensions_required),
    {
        if buffer_dimensions_required.0 > self.texture_size.0 || buffer_dimensions_required.1
            > self.texture_size.1 {
            self.texture_size = buffer_dimensions_required;
            self.bound_texture = None;
            true
        } else {
            false
        }
    }
}

} // verus!
