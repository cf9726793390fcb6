//! Model of the graphics backend at its interface boundary: texture
//! allocation and the two kinds of views derived from an allocation.
//!
//! A texture allocation is identified by a numeric id; the factory hands ids
//! out in order, so a freshly created texture is distinct from every handle
//! that existed before it.  Views carry the id of the allocation they were
//! derived from, which is what lets the rest of the crate state that two
//! views name the same texture.

use vstd::prelude::*;

verus! {

/// Antialiasing level requested for a surface: one sample per pixel, or a
/// multisample count.
#[derive(Clone, Copy, Debug, PartialEq, Eq)]
pub enum SampleCount {
    /// One sample per pixel (no antialiasing).
    Single,
    /// The given number of samples per pixel.
    Multi(u8),
}

/// Texture filtering method of a sampler.
#[derive(Clone, Copy, Debug, PartialEq, Eq)]
pub enum FilterMode {
    Nearest,
    Bilinear,
    Trilinear,
}

/// How a sampler treats coordinates outside the texture.
#[derive(Clone, Copy, Debug, PartialEq, Eq)]
pub enum WrapMode {
    Tile,
    Mirror,
    Clamp,
    Border,
}

/// Sampling configuration attached to a readable image view.
#[derive(Clone, Copy, Debug, PartialEq, Eq)]
pub struct SamplerInfo {
    pub filter: FilterMode,
    pub wrap: WrapMode,
}

/// Description of a texture the factory is asked to allocate.
#[derive(Clone, Copy, Debug, PartialEq, Eq)]
pub struct TextureSpec {
    /// Width in the backend's native units.
    pub width: u16,
    /// Height in the backend's native units.
    pub height: u16,
    /// Samples per pixel.
    pub samples: SampleCount,
    /// Whether color storage is sRGB-encoded (gamma correct).
    pub srgb: bool,
    /// Whether the texture can be bound as a shader-readable resource.
    pub bind_shader_resource: bool,
    /// Whether the texture can be bound as a render destination.
    pub bind_render_target: bool,
    /// Number of mip levels.
    pub levels: u8,
}

/// An allocated GPU texture.  The id names the allocation; size and format
/// are fixed at creation and never change.
#[derive(Clone, Copy, Debug, PartialEq, Eq)]
pub struct RawTexture {
    pub id: u64,
    pub info: TextureSpec,
}

/// A render-destination handle: the writable view of one mip level of a
/// texture.  The only way draw commands mutate that texture's pixels.
#[derive(Clone, Copy, Debug, PartialEq, Eq)]
pub struct RenderTargetView {
    /// Allocation the view writes into.
    pub texture: u64,
    /// Mip level the view writes.
    pub level: u8,
}

/// A shader-sampling handle: the readable view of a range of mip levels of a
/// texture.
#[derive(Clone, Copy, Debug, PartialEq, Eq)]
pub struct ShaderResourceView {
    /// Allocation the view reads from.
    pub texture: u64,
    /// First mip level visible through the view.
    pub min_level: u8,
    /// Last mip level visible through the view.
    pub max_level: u8,
}

/// Reasons the backend rejects a texture allocation.
#[derive(Clone, Copy, Debug, PartialEq, Eq)]
pub enum BackendError {
    /// The requested multisample count is not one the backend offers.
    UnsupportedSampleCount,
}

/// The multisample counts this backend offers: single sampling always, and
/// the power-of-two multisample counts 2, 4, 8 and 16.
pub open spec fn samples_supported(s: SampleCount) -> bool {
    match s {
        SampleCount::Single => true,
        SampleCount::Multi(n) => n == 2 || n == 4 || n == 8 || n == 16,
    }
}

/// The backend's texture factory.  It allocates textures and derives views
/// from them; it owns no other state.
#[derive(Clone, Copy, Debug, PartialEq, Eq)]
pub struct Factory {
    /// Id the next allocation will receive; every id below it is already
    /// taken by an earlier allocation.
    pub next_texture: u64,
    /// Largest width or height of a single texture.
    pub max_texture_size: u16,
}

impl Factory {
    /// Whether an id is left for one more allocation.
    pub open spec fn can_allocate(self) -> bool {
        self.next_texture < u64::MAX
    }

    /// Allocate a texture as described.  All-or-nothing: on rejection the
    /// factory is unchanged and no id is consumed; on success the new
    /// texture receives the next id, so it is distinct from every earlier
    /// allocation.
    pub fn create_texture(&mut self, info: TextureSpec) -> (r: Result<RawTexture, BackendError>)
        requires
            old(self).can_allocate(),
        ensures
            samples_supported(info.samples) ==> {
                &&& r matches Ok(t)
                &&& t == (RawTexture { id: old(self).next_texture, info })
                &&& final(self).next_texture == old(self).next_texture + 1
                &&& final(self).max_texture_size == old(self).max_texture_size
            },
            !samples_supported(info.samples) ==> {
                &&& r matches Err(e)
                &&& e == BackendError::UnsupportedSampleCount
                &&& *final(self) == *old(self)
            },
    {
        let supported = match info.samples {
            SampleCount::Single => true,
            SampleCount::Multi(n) => n == 2 || n == 4 || n == 8 || n == 16,
        };
        if supported {
            let tex = RawTexture { id: self.next_texture, info };
            self.next_texture = self.next_texture + 1;
            Ok(tex)
        } else {
            Err(BackendError::UnsupportedSampleCount)
        }
    }

    /// Derive the readable view of a texture, exposing the mip levels from
    /// `min_level` to `max_level`.  Derivation allocates nothing.
    pub fn view_texture_as_shader_resource(
        &self,
        tex: &RawTexture,
        min_level: u8,
        max_level: u8,
    ) -> (v: ShaderResourceView)
        ensures
            v == (ShaderResourceView { texture: tex.id, min_level, max_level }),
    {
        ShaderResourceView { texture: tex.id, min_level, max_level }
    }

    /// Derive the writable view of one mip level of a texture.  Derivation
    /// allocates nothing.
    pub fn view_texture_as_render_target(&self, tex: &RawTexture, level: u8) -> (v:
        RenderTargetView)
        ensures
            v == (RenderTargetView { texture: tex.id, level }),
    {
        RenderTargetView { texture: tex.id, level }
    }
}

} // verus!
