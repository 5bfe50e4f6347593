//! What a surface supports, and the configuration it is presented with.

use crate::format::{preferred_format, select_surface_format};
use vstd::prelude::*;
use wgpu::{CompositeAlphaMode, PresentMode, TextureFormat};
use winit::dpi::PhysicalSize;

verus! {

/// The uses a texture is created for.
#[derive(Clone, Copy, Debug, PartialEq, Eq)]
pub struct TextureUsage {
    /// The texture can be sampled through a bind group.
    pub texture_binding: bool,
    /// The texture can be the target of a render pass.
    pub render_attachment: bool,
}

/// What a surface supports with a given adapter, each list in the driver's
/// order of preference.
#[derive(Debug)]
pub struct SurfaceCapabilities {
    pub formats: Vec<TextureFormat>,
    pub present_modes: Vec<PresentMode>,
    pub alpha_modes: Vec<CompositeAlphaMode>,
}

/// How a surface is set up for presentation.
#[derive(Clone, Copy, Debug, PartialEq, Eq)]
pub struct SurfaceConfig {
    pub usage: TextureUsage,
    pub format: TextureFormat,
    pub width: u32,
    pub height: u32,
    pub present_mode: PresentMode,
    pub alpha_mode: CompositeAlphaMode,
}

impl SurfaceCapabilities {
    /// A configuration can be drawn from the capabilities: the surface
    /// supports at least one format, one present mode and one alpha mode.
    pub open spec fn usable(&self) -> bool {
        &&& self.formats@.len() > 0
        &&& self.present_modes@.len() > 0
        &&& self.alpha_modes@.len() > 0
    }

    /// Tells whether a configuration can be drawn from the capabilities.
    pub fn is_usable(&self) -> (usable: bool)
        ensures
            usable == self.usable(),
    {
        self.formats.len() > 0 && self.present_modes.len() > 0 && self.alpha_modes.len() > 0
    }
}

impl SurfaceConfig {
    /// The configuration of a surface of the given size: a render target in
    /// the preferred format, with the first present mode and the first alpha
    /// mode that the surface supports.
    pub open spec fn spec_initial(
        size: PhysicalSize<u32>,
        capabilities: &SurfaceCapabilities,
    ) -> SurfaceConfig {
        SurfaceConfig {
            usage: TextureUsage { texture_binding: false, render_attachment: true },
            format: preferred_format(capabilities.formats@),
            width: size.width,
            height: size.height,
            present_mode: capabilities.present_modes@[0],
            alpha_mode: capabilities.alpha_modes@[0],
        }
    }

    /// The same configuration for another size.
    pub open spec fn spec_with_size(self, size: PhysicalSize<u32>) -> SurfaceConfig {
        SurfaceConfig { width: size.width, height: size.height, ..self }
    }

    /// Builds the configuration a surface of the given size starts with.
    pub fn initial(size: PhysicalSize<u32>, capabilities: &SurfaceCapabilities) -> (config: Self)
        requires
            capabilities.usable(),
        ensures
            config == Self::spec_initial(size, capabilities),
    {
        SurfaceConfig {
            usage: TextureUsage { texture_binding: false, render_attachment: true },
            format: select_surface_format(&capabilities.formats),
            width: size.width,
            height: size.height,
            present_mode: capabilities.present_modes[0],
            alpha_mode: capabilities.alpha_modes[0],
        }
    }

    /// Returns the same configuration for another size.
    pub fn with_size(self, size: PhysicalSize<u32>) -> (config: Self)
        ensures
            config == self.spec_with_size(size),
    {
        SurfaceConfig { width: size.width, height: size.height, ..self }
    }
}

} // verus!
