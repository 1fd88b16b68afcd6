//! Textures as the pass sees them: handles, and what a handle resolves to.

use crate::storage::Storage;
use vstd::prelude::*;

verus! {

/// A reference to a texture asset. It is not the pixel data, and the asset it
/// names may not be loaded yet.
#[derive(Clone, Copy, Debug, PartialEq, Eq, Structural)]
pub struct TextureHandle(pub usize);

/// A GPU view onto a loaded texture, named by the host.
#[derive(Clone, Copy, Debug, PartialEq, Eq, Structural)]
pub struct TextureView(pub u64);

/// A GPU sampler, named by the host.
#[derive(Clone, Copy, Debug, PartialEq, Eq, Structural)]
pub struct Sampler(pub u64);

/// A loaded texture: the two GPU objects a draw binds for it.
#[derive(Clone, Copy, Debug, PartialEq, Eq, Structural)]
pub struct Texture {
    pub view: TextureView,
    pub sampler: Sampler,
}

/// Textures that stand in when a material's own are not loaded.
#[derive(Clone, Copy, Debug, PartialEq, Eq, Structural)]
pub struct MaterialDefaults {
    pub albedo: TextureHandle,
}

/// The texture a draw uses for `wanted`: the texture under that handle when
/// it is loaded, else the one under `fallback`, else none.
pub open spec fn resolved_texture(
    textures: Map<usize, Texture>,
    wanted: TextureHandle,
    fallback: TextureHandle,
) -> Option<Texture> {
    if textures.dom().contains(wanted.0) {
        Some(textures[wanted.0])
    } else if textures.dom().contains(fallback.0) {
        Some(textures[fallback.0])
    } else {
        None
    }
}

/// Looks `wanted` up in the store and falls back to `fallback` when it is
/// not loaded.
pub fn resolve_texture(
    textures: &Storage<Texture>,
    wanted: TextureHandle,
    fallback: TextureHandle,
) -> (r: Option<Texture>)
    ensures
        r == resolved_texture(textures@, wanted, fallback),
{
    match textures.get(wanted.0) {
        Some(t) => Some(*t),
        None => match textures.get(fallback.0) {
            Some(t) => Some(*t),
            None => None,
        },
    }
}

} // verus!
