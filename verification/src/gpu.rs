//! The plain-data types of `wgpu` and `winit` that the lifecycle speaks in.
//!
//! Verus reads the definitions of the declared types from the crates
//! themselves, so their fields and variants can be built, matched and compared
//! in verified code.  The two presentation enums are only carried from a
//! capability list into a configuration; nothing looks inside them.

use vstd::prelude::*;

verus! {

/// Block dimensions of an ASTC format; a field of `wgpu::TextureFormat::Astc`.
#[verifier::external_type_specification]
pub struct ExAstcBlock(wgpu::AstcBlock);

/// Channel kind of an ASTC format; a field of `wgpu::TextureFormat::Astc`.
#[verifier::external_type_specification]
pub struct ExAstcChannel(wgpu::AstcChannel);

/// Pixel format of a texture, with all its variants.
#[verifier::external_type_specification]
pub struct ExTextureFormat(wgpu::TextureFormat);

/// Dimensionality of a texture.
#[verifier::external_type_specification]
pub struct ExTextureDimension(wgpu::TextureDimension);

/// Extent of a texture: width, height, and depth or number of layers.
#[verifier::external_type_specification]
pub struct ExExtent3d(wgpu::Extent3d);

/// A size in physical pixels, as the window system reports it.
#[verifier::external_type_specification]
#[verifier::reject_recursive_types(P)]
pub struct ExPhysicalSize<P>(winit::dpi::PhysicalSize<P>);

/// How frames are paced against the display; an opaque value here.
#[verifier::external_type_specification]
#[verifier::external_body]
pub struct ExPresentMode(wgpu::PresentMode);

/// How the alpha channel is composited; an opaque value here.
#[verifier::external_type_specification]
#[verifier::external_body]
pub struct ExCompositeAlphaMode(wgpu::CompositeAlphaMode);

} // verus!
