//! The depth texture that accompanies a surface.

use crate::surface::TextureUsage;
use vstd::prelude::*;
use wgpu::{Extent3d, TextureDimension, TextureFormat};
use winit::dpi::PhysicalSize;

verus! {

/// What a texture is to be created with.
#[derive(Clone, Copy, Debug, PartialEq, Eq)]
pub struct TextureRequest {
    pub size: Extent3d,
    pub mip_level_count: u32,
    pub sample_count: u32,
    pub dimension: TextureDimension,
    pub format: TextureFormat,
    pub usage: TextureUsage,
}

/// The depth texture of a surface of the given size: a single-layer 2D
/// texture of that width and height, with one mip level and one sample, that
/// can be rendered to and sampled.
pub open spec fn spec_depth_texture_request(
    size: PhysicalSize<u32>,
    format: TextureFormat,
) -> TextureRequest {
    TextureRequest {
        size: Extent3d { width: size.width, height: size.height, depth_or_array_layers: 1 },
        mip_level_count: 1,
        sample_count: 1,
        dimension: TextureDimension::D2,
        format,
        usage: TextureUsage { texture_binding: true, render_attachment: true },
    }
}

/// Describes the depth texture of a surface of the given size.
pub fn depth_texture_request(size: PhysicalSize<u32>, format: TextureFormat) -> (request:
    TextureRequest)
    ensures
        request == spec_depth_texture_request(size, format),
{
    TextureRequest {
        size: Extent3d { width: size.width, height: size.height, depth_or_array_layers: 1 },
        mip_level_count: 1,
        sample_count: 1,
        dimension: TextureDimension::D2,
        format,
        usage: TextureUsage { texture_binding: true, render_attachment: true },
    }
}

} // verus!
