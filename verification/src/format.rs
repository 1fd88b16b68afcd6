//! Element formats shared by vertex attributes and textures.

use vstd::prelude::*;

verus! {

/// Memory layout of one element: how many channels it has and how wide each is.
#[derive(Clone, Copy, Debug, PartialEq, Eq, Structural)]
pub enum SurfaceType {
    /// Four 8-bit channels.
    R8G8B8A8,
    /// Two 32-bit channels.
    R32G32,
    /// Three 32-bit channels.
    R32G32B32,
    /// Four 32-bit channels.
    R32G32B32A32,
}

/// How the bits of a channel are read.
#[derive(Clone, Copy, Debug, PartialEq, Eq, Structural)]
pub enum ChannelType {
    /// Unsigned, normalized to the unit interval, linear.
    Unorm,
    /// Unsigned, normalized, in the sRGB color space.
    Srgb,
    /// Floating point.
    Float,
}

/// A complete element format.
#[derive(Clone, Copy, Debug, PartialEq, Eq, Structural)]
pub struct Format {
    pub surface: SurfaceType,
    pub channel: ChannelType,
}

impl SurfaceType {
    /// Size of one element in bytes.
    pub open spec fn spec_bytes(self) -> u8 {
        match self {
            SurfaceType::R8G8B8A8 => 4,
            SurfaceType::R32G32 => 8,
            SurfaceType::R32G32B32 => 12,
            SurfaceType::R32G32B32A32 => 16,
        }
    }

    /// Size of one element in bytes.
    #[verifier::when_used_as_spec(spec_bytes)]
    pub fn bytes(self) -> (r: u8)
        ensures
            r == self.spec_bytes(),
    {
        match self {
            SurfaceType::R8G8B8A8 => 4,
            SurfaceType::R32G32 => 8,
            SurfaceType::R32G32B32 => 12,
            SurfaceType::R32G32B32A32 => 16,
        }
    }
}

} // verus!
