//! Textures: the backing images, the sub-textures that window into them, and
//! the registry that hands out handles for both.

pub mod manager;
pub mod texture;
pub mod util;

pub use manager::TextureManager;
pub use texture::{Extent3d, RawTextureData, SubTexture, Texture, TextureUpload};

use vstd::prelude::*;

verus! {

/// Identifies a backing texture. Distinct from the public `TextureHandle`,
/// which identifies a sub-texture.
pub type InternalHandle = usize;

} // verus!
