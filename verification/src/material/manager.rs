use std::collections::HashMap;
use vstd::prelude::*;
use vstd::std_specs::hash::*;

use super::texture::{RawTextureData, SubTexture, Texture, TextureUpload};
use super::util::{load_from_file, png_decoded};
use super::InternalHandle;
use crate::{AssetHolder, TextureHandle, NULL_TEXTURE};

verus! {

/// The side length, in texels, that the texture slot of the shape pipeline
/// starts out with.
pub const INITIAL_TEXTURE_SIZE: u32 = 256;

/// What a `TextureManager` holds.
pub struct TextureRegistry {
    /// The sub-textures by their public handle.
    pub sub_textures: Map<TextureHandle, SubTexture>,
    /// The backing textures by their internal handle.
    pub textures: Map<InternalHandle, AssetHolder<Texture, RawTextureData>>,
    /// The handle that the next backing texture gets.
    pub next_internal_handle: InternalHandle,
    /// The handle that the next sub-texture gets.
    pub next_texture_handle: TextureHandle,
    /// The backing textures registered since the last preparation, oldest first.
    pub needs_loading: Seq<InternalHandle>,
    /// Whether anything was registered since the last preparation.
    pub needs_preparing: bool,
    /// The largest width and the largest height ever registered.
    pub max_texture_size: (u32, u32),
}

/// The extent of a backing texture, uploaded or not.
pub open spec fn asset_size(holder: AssetHolder<Texture, RawTextureData>) -> (u32, u32) {
    match holder {
        AssetHolder::Unprepared(raw) => (raw.width, raw.height),
        AssetHolder::Loaded(texture) => (texture.texture_extent.width, texture.texture_extent.height),
    }
}

/// The record that replaces raw pixels once they are on the GPU.
pub open spec fn resident(raw: RawTextureData) -> Texture {
    Texture {
        texture_extent: super::texture::Extent3d {
            width: raw.width,
            height: raw.height,
            depth_or_array_layers: 1,
        },
    }
}

/// A backing texture after a preparation step: loaded, whatever it was.
pub open spec fn after_upload(
    holder: AssetHolder<Texture, RawTextureData>,
) -> AssetHolder<Texture, RawTextureData> {
    match holder {
        AssetHolder::Unprepared(raw) => AssetHolder::Loaded(resident(raw)),
        AssetHolder::Loaded(texture) => AssetHolder::Loaded(texture),
    }
}

/// The uploads that a preparation step owes for the handles in `pending`, in
/// their order: one for each handle whose texture is still unprepared.
pub open spec fn uploads_due(
    textures: Map<InternalHandle, AssetHolder<Texture, RawTextureData>>,
    pending: Seq<InternalHandle>,
) -> Seq<TextureUpload>
    decreases pending.len(),
{
    if pending.len() == 0 {
        Seq::empty()
    } else {
        let earlier = uploads_due(textures, pending.drop_last());
        let handle = pending.last();
        if textures.contains_key(handle) && textures[handle] is Unprepared {
            earlier.push(TextureUpload { texture: handle, raw: textures[handle]->Unprepared_0 })
        } else {
            earlier
        }
    }
}

impl TextureRegistry {
    /// The invariant of the registry.
    pub open spec fn wf(self) -> bool {
        // Sub-texture handles are handed out in sequence, starting after the
        // null handle, and never taken back.
        &&& 1 <= self.next_texture_handle
        &&& forall|h: TextureHandle| #[trigger]
            self.sub_textures.contains_key(h) <==> 0 < h < self.next_texture_handle
        // A sub-texture names a backing texture that was handed out, and its
        // far corner fits the coordinate type.
        &&& forall|h: TextureHandle| #[trigger]
            self.sub_textures.contains_key(h) ==> self.sub_textures[h].bounded()
                && self.sub_textures[h].texture < self.next_internal_handle
        &&& forall|t: InternalHandle| #[trigger]
            self.textures.contains_key(t) ==> t < self.next_internal_handle
        // Whatever is not uploaded yet is on the list for the next preparation.
        &&& forall|t: InternalHandle| #[trigger]
            self.textures.contains_key(t) && self.textures[t] is Unprepared
                ==> self.needs_loading.contains(t)
        &&& forall|i: int|
            0 <= i < self.needs_loading.len() ==> #[trigger] self.needs_loading[i]
                < self.next_internal_handle
        &&& self.needs_loading.no_duplicates()
        &&& self.needs_preparing <==> self.needs_loading.len() > 0
        // The required size covers the initial slot and every texture.
        &&& self.max_texture_size.0 >= INITIAL_TEXTURE_SIZE
        &&& self.max_texture_size.1 >= INITIAL_TEXTURE_SIZE
        &&& forall|t: InternalHandle| #[trigger]
            self.textures.contains_key(t) ==> asset_size(self.textures[t]).0
                <= self.max_texture_size.0 && asset_size(self.textures[t]).1
                <= self.max_texture_size.1
    }

    /// The registry that holds nothing.
    pub open spec fn empty() -> TextureRegistry {
        TextureRegistry {
            sub_textures: Map::empty(),
            textures: Map::empty(),
            next_internal_handle: 0,
            next_texture_handle: 1,
            needs_loading: Seq::empty(),
            needs_preparing: false,
            max_texture_size: (INITIAL_TEXTURE_SIZE, INITIAL_TEXTURE_SIZE),
        }
    }

    /// Both handle counters can still be advanced.
    pub open spec fn has_room(self) -> bool {
        self.next_texture_handle < usize::MAX && self.next_internal_handle < usize::MAX
    }

    /// The registry with one more sub-texture, under the next handle.
    pub open spec fn with_sub_texture(self, sub_texture: SubTexture) -> TextureRegistry {
        TextureRegistry {
            sub_textures: self.sub_textures.insert(self.next_texture_handle, sub_texture),
            next_texture_handle: (self.next_texture_handle + 1) as usize,
            ..self
        }
    }

    /// The registry with one more backing texture, unprepared and listed for
    /// upload, and a sub-texture that covers all of it.
    pub open spec fn with_texture(self, raw: RawTextureData) -> TextureRegistry {
        TextureRegistry {
            textures: self.textures.insert(self.next_internal_handle, AssetHolder::Unprepared(raw)),
            next_internal_handle: (self.next_internal_handle + 1) as usize,
            needs_loading: self.needs_loading.push(self.next_internal_handle),
            needs_preparing: true,
            max_texture_size: (
                if raw.width > self.max_texture_size.0 {
                    raw.width
                } else {
                    self.max_texture_size.0
                },
                if raw.height > self.max_texture_size.1 {
                    raw.height
                } else {
                    self.max_texture_size.1
                },
            ),
            ..self
        }.with_sub_texture(
            SubTexture {
                texture: self.next_internal_handle,
                texture_position: [0, 0],
                texture_size: [raw.width, raw.height],
            },
        )
    }

    /// Whether a window into `parent` is granted: the parent exists and the
    /// window lies inside it.
    pub open spec fn grants(
        self,
        parent: TextureHandle,
        pos_x: u32,
        pos_y: u32,
        width: u32,
        height: u32,
    ) -> bool {
        self.sub_textures.contains_key(parent) && self.sub_textures[parent].holds(
            pos_x,
            pos_y,
            width,
            height,
        )
    }

    /// The registry after a preparation step: every backing texture loaded,
    /// nothing left to upload.
    pub open spec fn prepared(self) -> TextureRegistry {
        TextureRegistry {
            textures: self.textures.map_values(
                |holder: AssetHolder<Texture, RawTextureData>| after_upload(holder),
            ),
            needs_loading: Seq::empty(),
            needs_preparing: false,
            ..self
        }
    }

    /// The backing texture that a public handle leads to, if it leads anywhere.
    pub open spec fn backing(self, handle: TextureHandle) -> Option<InternalHandle> {
        if self.sub_textures.contains_key(handle) {
            Some(self.sub_textures[handle].texture)
        } else {
            None
        }
    }

    /// The backing texture that an optional public handle leads to.
    pub open spec fn backing_of(self, handle: Option<TextureHandle>) -> Option<InternalHandle> {
        match handle {
            Some(h) => self.backing(h),
            None => None,
        }
    }

    /// The corners of the window that an optional public handle names, or the
    /// zero rectangle where it names none.
    pub open spec fn corners(self, handle: Option<TextureHandle>) -> [u32; 4] {
        match handle {
            Some(h) => if self.sub_textures.contains_key(h) {
                self.sub_textures[h].tl_br()
            } else {
                [0, 0, 0, 0]
            },
            None => [0, 0, 0, 0],
        }
    }

    /// The resident texture under an internal handle, if it is loaded.
    pub open spec fn loaded(self, handle: InternalHandle) -> Option<Texture> {
        if self.textures.contains_key(handle) {
            match self.textures[handle] {
                AssetHolder::Loaded(texture) => Some(texture),
                AssetHolder::Unprepared(_) => None,
            }
        } else {
            None
        }
    }

    /// The resident texture that a public handle leads to: that of its
    /// backing texture, if it leads to one and that one is loaded.
    pub open spec fn resolve(self, handle: TextureHandle) -> Option<Texture> {
        match self.backing(handle) {
            Some(texture) => self.loaded(texture),
            None => None,
        }
    }

    /// The registry without the backing texture of `handle`.
    pub open spec fn without(self, handle: TextureHandle) -> TextureRegistry {
        match self.backing(handle) {
            Some(texture) => TextureRegistry { textures: self.textures.remove(texture), ..self },
            None => self,
        }
    }
}

/// The null handle names no sub-texture: it resolves to no backing texture,
/// and what is drawn with it is drawn untextured.
pub proof fn lemma_null_handle_leads_nowhere(registry: TextureRegistry)
    requires
        registry.wf(),
    ensures
        !registry.sub_textures.contains_key(NULL_TEXTURE),
        registry.backing_of(Some(NULL_TEXTURE)) is None,
        registry.resolve(NULL_TEXTURE) is None,
        registry.corners(Some(NULL_TEXTURE)) == [0u32, 0u32, 0u32, 0u32],
{
}

/// Adding a sub-texture whose far corner fits, and whose backing texture was
/// handed out, keeps the registry well formed.
pub proof fn lemma_with_sub_texture_wf(registry: TextureRegistry, sub_texture: SubTexture)
    requires
        registry.wf(),
        registry.next_texture_handle < usize::MAX,
        sub_texture.bounded(),
        sub_texture.texture < registry.next_internal_handle,
    ensures
        registry.with_sub_texture(sub_texture).wf(),
{
    let after = registry.with_sub_texture(sub_texture);
    assert forall|h: TextureHandle| #[trigger]
        after.sub_textures.contains_key(h) <==> 0 < h < after.next_texture_handle by {
        if h != registry.next_texture_handle {
            assert(after.sub_textures.contains_key(h) == registry.sub_textures.contains_key(h));
        }
    }
    assert forall|h: TextureHandle| #[trigger]
        after.sub_textures.contains_key(h) implies after.sub_textures[h].bounded()
        && after.sub_textures[h].texture < after.next_internal_handle by {
        if h != registry.next_texture_handle {
            assert(registry.sub_textures.contains_key(h));
        }
    }
}

/// Registering a texture keeps the registry well formed.
pub proof fn lemma_with_texture_wf(registry: TextureRegistry, raw: RawTextureData)
    requires
        registry.wf(),
        registry.has_room(),
    ensures
        registry.with_texture(raw).wf(),
{
    let handle = registry.next_internal_handle;
    let middle = TextureRegistry {
        textures: registry.textures.insert(handle, AssetHolder::Unprepared(raw)),
        next_internal_handle: (handle + 1) as usize,
        needs_loading: registry.needs_loading.push(handle),
        needs_preparing: true,
        max_texture_size: registry.with_texture(raw).max_texture_size,
        ..registry
    };
    assert forall|h: TextureHandle| #[trigger]
        middle.sub_textures.contains_key(h) implies middle.sub_textures[h].bounded()
        && middle.sub_textures[h].texture < middle.next_internal_handle by {
        assert(registry.sub_textures.contains_key(h));
    }
    assert forall|t: InternalHandle| #[trigger]
        middle.textures.contains_key(t) implies t < middle.next_internal_handle by {
        if t != handle {
            assert(registry.textures.contains_key(t));
        }
    }
    assert forall|t: InternalHandle| #[trigger]
        middle.textures.contains_key(t) && middle.textures[t] is Unprepared
        implies middle.needs_loading.contains(t) by {
        if t != handle {
            assert(registry.textures.contains_key(t));
            assert(registry.needs_loading.contains(t));
            let k = choose|k: int|
                0 <= k < registry.needs_loading.len() && registry.needs_loading[k] == t;
            assert(middle.needs_loading[k] == t);
        } else {
            assert(middle.needs_loading[middle.needs_loading.len() - 1] == t);
        }
    }
    assert forall|i: int, j: int|
        0 <= i < middle.needs_loading.len() && 0 <= j < middle.needs_loading.len() && i != j
        implies middle.needs_loading[i] != middle.needs_loading[j] by {
        if i < registry.needs_loading.len() {
            assert(registry.needs_loading[i] < handle);
        }
        if j < registry.needs_loading.len() {
            assert(registry.needs_loading[j] < handle);
        }
    }
    assert forall|t: InternalHandle| #[trigger]
        middle.textures.contains_key(t) implies asset_size(middle.textures[t]).0
        <= middle.max_texture_size.0 && asset_size(middle.textures[t]).1
        <= middle.max_texture_size.1 by {
        if t != handle {
            assert(registry.textures.contains_key(t));
        }
    }
    assert(middle.wf());
    let covering = SubTexture {
        texture: handle,
        texture_position: [0, 0],
        texture_size: [raw.width, raw.height],
    };
    assert(covering.bounded());
    lemma_with_sub_texture_wf(middle, covering);
    assert(registry.with_texture(raw) == middle.with_sub_texture(covering));
}

/// A preparation step keeps the registry well formed and leaves every
/// backing texture loaded.
pub proof fn lemma_prepared_wf(registry: TextureRegistry)
    requires
        registry.wf(),
    ensures
        registry.prepared().wf(),
        forall|t: InternalHandle| #[trigger]
            registry.prepared().textures.contains_key(t) ==> registry.prepared().textures[t]
                is Loaded,
{
    let after = registry.prepared();
    assert forall|t: InternalHandle| #[trigger] after.textures.contains_key(t) implies t
        < after.next_internal_handle && after.textures[t] is Loaded && asset_size(
        after.textures[t],
    ) == asset_size(registry.textures[t]) by {
        assert(registry.textures.contains_key(t));
    }
}

/// A backing texture that is loaded stays loaded, and stays as it is,
/// whatever is registered or prepared after it; only letting go of it takes
/// it out of the registry.
pub proof fn lemma_loaded_is_lasting(
    registry: TextureRegistry,
    texture: InternalHandle,
    raw: RawTextureData,
    sub_texture: SubTexture,
    dropped: TextureHandle,
)
    requires
        registry.wf(),
        registry.loaded(texture) is Some,
    ensures
        registry.with_texture(raw).loaded(texture) == registry.loaded(texture),
        registry.with_sub_texture(sub_texture).loaded(texture) == registry.loaded(texture),
        registry.prepared().loaded(texture) == registry.loaded(texture),
        registry.without(dropped).loaded(texture) == if registry.backing(dropped) == Some(texture) {
            None
        } else {
            registry.loaded(texture)
        },
{
    assert(registry.textures.contains_key(texture));
}

/// A preparation step with nothing registered since the last one changes
/// nothing, and owes no upload.
pub proof fn lemma_prepared_is_lasting(registry: TextureRegistry)
    requires
        registry.wf(),
        !registry.needs_preparing,
    ensures
        registry.prepared() == registry,
        uploads_due(registry.textures, registry.needs_loading) == Seq::<TextureUpload>::empty(),
{
    let after = registry.prepared();
    assert(after.needs_loading =~= registry.needs_loading);
    assert forall|t: InternalHandle| #[trigger] registry.textures.contains_key(t) implies after.textures[t]
        == registry.textures[t] by {
        if registry.textures[t] is Unprepared {
            assert(registry.needs_loading.contains(t));
        }
    }
    assert(after.textures =~= registry.textures);
}

/// Hands out handles for textures and for rectangular windows into them, and
/// keeps track of which backing textures still have to be sent to the GPU.
pub struct TextureManager {
    sub_texture_map: HashMap<TextureHandle, SubTexture>,
    textures: HashMap<InternalHandle, AssetHolder<Texture, RawTextureData>>,
    next_internal_handle: InternalHandle,
    next_texture_handle: TextureHandle,
    needs_loading: Vec<InternalHandle>,
    needs_preparing: bool,
    max_texture_size: (u32, u32),
}

impl View for TextureManager {
    type V = TextureRegistry;

    closed spec fn view(&self) -> TextureRegistry {
        TextureRegistry {
            sub_textures: self.sub_texture_map@,
            textures: self.textures@,
            next_internal_handle: self.next_internal_handle,
            next_texture_handle: self.next_texture_handle,
            needs_loading: self.needs_loading@,
            needs_preparing: self.needs_preparing,
            max_texture_size: self.max_texture_size,
        }
    }
}

impl TextureManager {
    /// The invariant that every operation keeps.
    pub open spec fn wf(&self) -> bool {
        self@.wf()
    }

    pub fn new() -> (manager: Self)
        ensures
            manager.wf(),
            manager@ == TextureRegistry::empty(),
    {
        Self {
            sub_texture_map: HashMap::new(),
            textures: HashMap::new(),
            next_internal_handle: 0,
            next_texture_handle: 1,
            needs_loading: Vec::new(),
            needs_preparing: false,
            max_texture_size: (INITIAL_TEXTURE_SIZE, INITIAL_TEXTURE_SIZE),
        }
    }

    /// The width and height that the texture slot of the shape pipeline needs
    /// to hold any registered texture.
    pub fn buffer_dimensions_required(&self) -> (size: (u32, u32))
        ensures
            size == self@.max_texture_size,
    {
        self.max_texture_size
    }

    /// Whether both handle counters can still be advanced.
    pub fn has_room(&self) -> (room: bool)
        ensures
            room == self@.has_room(),
    {
        self.next_texture_handle < usize::MAX && self.next_internal_handle < usize::MAX
    }

    /// Registers a backing texture from its pixels and returns the handle of
    /// a sub-texture that covers all of it.
    pub fn create_texture_from_data(&mut self, raw_data: Vec<u8>, width: u32, height: u32) -> (handle:
        TextureHandle)
        requires
            old(self).wf(),
            old(self)@.has_room(),
        ensures
            final(self).wf(),
            final(self)@ == old(self)@.with_texture(RawTextureData { width, height, data: raw_data }),
            handle == old(self)@.next_texture_handle,
            handle != NULL_TEXTURE,
    {
        broadcast use group_hash_axioms;

        if width > self.max_texture_size.0 {
            self.max_texture_size.0 = width;
        }
        if height > self.max_texture_size.1 {
            self.max_texture_size.1 = height;
        }
        let holder = AssetHolder::Unprepared(RawTextureData { width, height, data: raw_data });
        let i_handle = self.next_internal_handle;
        self.textures.insert(i_handle, holder);
        self.needs_loading.push(i_handle);
        self.next_internal_handle += 1;
        self.needs_preparing = true;

        let sub_texture = SubTexture {
            texture: i_handle,
            texture_position: [0, 0],
            texture_size: [width, height],
        };
        let handle = self.add_sub_texture(sub_texture);
        proof {
            lemma_with_texture_wf(old(self)@, RawTextureData { width, height, data: raw_data });
        }
        handle
    }

    /// Registers the image in a PNG file, given the contents of the file.
    /// Registers nothing, and returns `None`, where they cannot be decoded.
    pub fn create_texture_from_file(&mut self, file: &[u8]) -> (handle: Option<TextureHandle>)
        requires
            old(self).wf(),
            old(self)@.has_room(),
        ensures
            final(self).wf(),
            match png_decoded(file@) {
                Some((data, width, height)) => {
                    &&& handle == Some(old(self)@.next_texture_handle)
                    &&& exists|raw: RawTextureData| #[trigger]
                        old(self)@.with_texture(raw) == final(self)@ && raw.data@ == data
                            && raw.width == width && raw.height == height
                },
                None => handle is None && final(self)@ == old(self)@,
            },
    {
        match load_from_file(file) {
            Some((raw_data, width, height)) => {
                let ghost raw = RawTextureData { width, height, data: raw_data };
                let handle = self.create_texture_from_data(raw_data, width, height);
                assert(old(self)@.with_texture(raw) == self@);
                Some(handle)
            },
            None => None,
        }
    }

    /// Registers a window into the sub-texture `texture`, offsets relative to
    /// that parent. Returns the null handle, and registers nothing, where the
    /// parent is unknown or the window runs past the parent's size.
    pub fn create_sub_texture(
        &mut self,
        texture: TextureHandle,
        pos_x: u32,
        pos_y: u32,
        width: u32,
        height: u32,
    ) -> (handle: TextureHandle)
        requires
            old(self).wf(),
            old(self)@.next_texture_handle < usize::MAX,
        ensures
            final(self).wf(),
            old(self)@.grants(texture, pos_x, pos_y, width, height) ==> {
                &&& handle == old(self)@.next_texture_handle
                &&& handle != NULL_TEXTURE
                &&& final(self)@ == old(self)@.with_sub_texture(
                    old(self)@.sub_textures[texture].window(pos_x, pos_y, width, height),
                )
            },
            !old(self)@.grants(texture, pos_x, pos_y, width, height) ==> {
                &&& handle == NULL_TEXTURE
                &&& final(self)@ == old(self)@
            },
    {
        broadcast use group_hash_axioms;

        let found = match self.sub_texture_map.get(&texture) {
            Some(parent) => Some(*parent),
            None => None,
        };
        if let Some(parent) = found {
            assert(self@.sub_textures.contains_key(texture) && parent == self@.sub_textures[texture]);
            let is_inside = width <= parent.texture_size[0] && pos_x <= parent.texture_size[0]
                - width && height <= parent.texture_size[1] && pos_y <= parent.texture_size[1]
                - height;
            if is_inside {
                let new_pos_x = parent.texture_position[0] + pos_x;
                let new_pos_y = parent.texture_position[1] + pos_y;
                let new_sub_texture = SubTexture {
                    texture: parent.texture,
                    texture_position: [new_pos_x, new_pos_y],
                    texture_size: [width, height],
                };
                proof {
                    lemma_with_sub_texture_wf(self@, new_sub_texture);
                }
                return self.add_sub_texture(new_sub_texture);
            }
        }
        NULL_TEXTURE
    }

    fn add_sub_texture(&mut self, new_sub_texture: SubTexture) -> (handle: TextureHandle)
        requires
            old(self)@.next_texture_handle < usize::MAX,
        ensures
            final(self)@ == old(self)@.with_sub_texture(new_sub_texture),
            handle == old(self)@.next_texture_handle,
    {
        broadcast use group_hash_axioms;

        let t_handle = self.next_texture_handle;
        self.next_texture_handle += 1;
        self.sub_texture_map.insert(t_handle, new_sub_texture);
        t_handle
    }

    /// Whether a backing texture was registered since the last preparation.
    pub fn needs_preparing(&self) -> (needed: bool)
        ensures
            needed == self@.needs_preparing,
    {
        self.needs_preparing
    }

    /// The sub-texture under a public handle.
    pub fn get_sub_texture(&self, handle: &TextureHandle) -> (found: Option<&SubTexture>)
        ensures
            match found {
                Some(sub_texture) => self@.sub_textures.contains_key(*handle) && *sub_texture
                    == self@.sub_textures[*handle],
                None => !self@.sub_textures.contains_key(*handle),
            },
    {
        broadcast use group_hash_axioms;

        self.sub_texture_map.get(handle)
    }

    /// The resident texture under an internal handle: `None` where there is
    /// none under it or it has not been uploaded yet.
    pub fn get_texture(&self, handle: &InternalHandle) -> (found: Option<&Texture>)
        ensures
            match found {
                Some(texture) => self@.loaded(*handle) == Some(*texture),
                None => self@.loaded(*handle) is None,
            },
    {
        broadcast use group_hash_axioms;

        let holder = self.textures.get(handle);
        if let Some(holder) = holder {
            if let AssetHolder::Loaded(tex) = holder {
                return Some(tex);
            }
        }
        None
    }
    /// The resident texture to draw a sub-texture with: `None` where the
    /// handle names no sub-texture, or its backing texture is gone or has
    /// not been uploaded yet.
    pub fn resolve(&self, handle: &TextureHandle) -> (found: Option<&Texture>)
        ensures
            match found {
                Some(texture) => self@.resolve(*handle) == Some(*texture),
                None => self@.resolve(*handle) is None,
            },
    {
        match self.get_sub_texture(handle) {
            Some(sub_texture) => self.get_texture(&sub_texture.texture),
            None => None,
        }
    }

    /// The corners of the window under a public handle, in texels of its
    /// backing texture: left, top, right, bottom.
    pub fn get_tl_br_coords_for(&self, handle: &TextureHandle) -> (corners: Option<[u32; 4]>)
        requires
            self.wf(),
        ensures
            corners == if self@.sub_textures.contains_key(*handle) {
                Some(self@.sub_textures[*handle].tl_br())
            } else {
                None
            },
    {
        broadcast use group_hash_axioms;

        match self.sub_texture_map.get(handle) {
            Some(sub_texture) => {
                assert(self@.sub_textures.contains_key(*handle));
                Some(
                    [
                        sub_texture.texture_position[0],
                        sub_texture.texture_position[1],
                        sub_texture.texture_position[0] + sub_texture.texture_size[0],
                        sub_texture.texture_position[1] + sub_texture.texture_size[1],
                    ],
                )
            },
            None => None,
        }
    }

    /// The preparation step of a frame: every backing texture that is still
    /// unprepared becomes loaded, and its pixels are handed out for the
    /// upload, in the order of registration. With nothing registered since
    /// the last step, nothing changes and nothing is handed out.
    pub fn prepare(&mut self) -> (uploads: Vec<TextureUpload>)
        requires
            old(self).wf(),
        ensures
            final(self).wf(),
            final(self)@ == old(self)@.prepared(),
            uploads@ == uploads_due(old(self)@.textures, old(self)@.needs_loading),
    {
        broadcast use group_hash_axioms;

        let mut uploads: Vec<TextureUpload> = Vec::new();
        let mut i: usize = 0;
        while i < self.needs_loading.len()
            invariant
                0 <= i <= self.needs_loading@.len(),
                old(self).wf(),
                self.needs_loading@ == old(self).needs_loading@,
                self.sub_texture_map@ == old(self).sub_texture_map@,
                self.next_internal_handle == old(self).next_internal_handle,
                self.next_texture_handle == old(self).next_texture_handle,
                self.needs_preparing == old(self).needs_preparing,
                self.max_texture_size == old(self).max_texture_size,
                self.textures@.dom() == old(self).textures@.dom(),
                forall|t: InternalHandle| #[trigger]
                    self.textures@.contains_key(t) ==> self.textures@[t] == if self.needs_loading@.take(
                        i as int,
                    ).contains(t) {
                        after_upload(old(self).textures@[t])
                    } else {
                        old(self).textures@[t]
                    },
                uploads@ == uploads_due(old(self).textures@, self.needs_loading@.take(i as int)),
            decreases self.needs_loading@.len() - i,
        {
            let h = self.needs_loading[i];
            let ghost seen = self.needs_loading@.take(i as int);
            let ghost next = self.needs_loading@.take(i + 1);
            proof {
                assert(next.drop_last() == seen);
                assert(next.last() == h);
                assert(!seen.contains(h)) by {
                    if seen.contains(h) {
                        let k = choose|k: int| 0 <= k < seen.len() && seen[k] == h;
                        assert(self.needs_loading@[k] == self.needs_loading@[i as int]);
                    }
                }
                assert forall|t: InternalHandle| next.contains(t) <==> (seen.contains(t) || t == h) by {
                    if seen.contains(t) {
                        let k = choose|k: int| 0 <= k < seen.len() && seen[k] == t;
                        assert(next[k] == t);
                    }
                    if t == h {
                        assert(next[i as int] == t);
                    }
                    if next.contains(t) {
                        let k = choose|k: int| 0 <= k < next.len() && next[k] == t;
                        if k < i {
                            assert(seen[k] == t);
                        }
                    }
                }
            }
            match self.textures.remove(&h) {
                Some(AssetHolder::Unprepared(raw_texture)) => {
                    let texture = Texture::new(raw_texture.width, raw_texture.height);
                    self.textures.insert(h, AssetHolder::Loaded(texture));
                    uploads.push(TextureUpload { texture: h, raw: raw_texture });
                },
                Some(AssetHolder::Loaded(texture)) => {
                    self.textures.insert(h, AssetHolder::Loaded(texture));
                },
                None => {},
            }
            proof {
                assert(self.textures@.dom() =~= old(self).textures@.dom());
            }
            i += 1;
        }
        self.needs_loading.clear();
        self.needs_preparing = false;
        proof {
            let before = old(self)@;
            assert(before.needs_loading.take(before.needs_loading.len() as int)
                == before.needs_loading);
            assert forall|t: InternalHandle| #[trigger]
                self.textures@.contains_key(t) implies self.textures@[t] == after_upload(
                before.textures[t],
            ) by {
                assert(before.textures.contains_key(t));
                if !before.needs_loading.contains(t) {
                    assert(before.textures[t] is Loaded);
                }
            }
            assert(self.textures@ =~= before.textures.map_values(
                |holder: AssetHolder<Texture, RawTextureData>| after_upload(holder),
            ));
            lemma_prepared_wf(before);
        }
        uploads
    }

    /// Lets go of the backing texture of a sub-texture. The sub-textures
    /// that window into it stay registered and from now on lead nowhere.
    pub fn drop(&mut self, handle: TextureHandle)
        requires
            old(self).wf(),
        ensures
            final(self).wf(),
            final(self)@ == old(self)@.without(handle),
    {
        broadcast use group_hash_axioms;

        let backing = match self.sub_texture_map.get(&handle) {
            Some(sub_texture) => Some(sub_texture.texture),
            None => None,
        };
        if let Some(texture) = backing {
            self.textures.remove(&texture);
            proof {
                let before = old(self)@;
                let after = self@;
                assert forall|t: InternalHandle| #[trigger]
                    after.textures.contains_key(t) implies before.textures.contains_key(t)
                    && after.textures[t] == before.textures[t] by {}
                assert forall|h: TextureHandle| #[trigger]
                    after.sub_textures.contains_key(h) implies before.sub_textures.contains_key(
                    h,
                ) by {}
            }
        }
    }
}

} // verus!
