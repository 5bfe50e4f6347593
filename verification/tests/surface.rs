use wgpu::{CompositeAlphaMode, Extent3d, PresentMode, TextureDimension, TextureFormat};
use wgpu_bootstrap::depth::{depth_texture_request, TextureRequest};
use wgpu_bootstrap::surface::{SurfaceCapabilities, SurfaceConfig, TextureUsage};
use winit::dpi::PhysicalSize;

fn capabilities() -> SurfaceCapabilities {
    SurfaceCapabilities {
        formats: vec![TextureFormat::Bgra8Unorm, TextureFormat::Bgra8UnormSrgb],
        present_modes: vec![PresentMode::Mailbox, PresentMode::Fifo],
        alpha_modes: vec![CompositeAlphaMode::PreMultiplied, CompositeAlphaMode::Opaque],
    }
}

#[test]
fn capabilities_with_every_list_filled_are_usable() {
    assert!(capabilities().is_usable());
    let minimal = SurfaceCapabilities {
        formats: vec![TextureFormat::Bgra8Unorm],
        present_modes: vec![PresentMode::Fifo],
        alpha_modes: vec![CompositeAlphaMode::Opaque],
    };
    assert!(minimal.is_usable());
}

#[test]
fn capabilities_without_formats_are_not_usable() {
    let mut caps = capabilities();
    caps.formats.clear();
    assert!(!caps.is_usable());
}

#[test]
fn capabilities_without_present_modes_are_not_usable() {
    let mut caps = capabilities();
    caps.present_modes.clear();
    assert!(!caps.is_usable());
}

#[test]
fn capabilities_without_alpha_modes_are_not_usable() {
    let mut caps = capabilities();
    caps.alpha_modes.clear();
    assert!(!caps.is_usable());
}

#[test]
fn empty_capabilities_are_not_usable() {
    let caps = SurfaceCapabilities { formats: vec![], present_modes: vec![], alpha_modes: vec![] };
    assert!(!caps.is_usable());
}

#[test]
fn initial_configuration_takes_the_first_modes_and_the_srgb_format() {
    let config = SurfaceConfig::initial(PhysicalSize::new(800, 600), &capabilities());
    assert_eq!(
        config,
        SurfaceConfig {
            usage: TextureUsage { texture_binding: false, render_attachment: true },
            format: TextureFormat::Bgra8UnormSrgb,
            width: 800,
            height: 600,
            present_mode: PresentMode::Mailbox,
            alpha_mode: CompositeAlphaMode::PreMultiplied,
        }
    );
}

#[test]
fn initial_configuration_without_srgb_takes_the_first_format() {
    let caps = SurfaceCapabilities {
        formats: vec![TextureFormat::Rgba16Float, TextureFormat::Bgra8Unorm],
        present_modes: vec![PresentMode::Fifo],
        alpha_modes: vec![CompositeAlphaMode::Auto],
    };
    let config = SurfaceConfig::initial(PhysicalSize::new(1, 1), &caps);
    assert_eq!(config.format, TextureFormat::Rgba16Float);
    assert_eq!(config.present_mode, PresentMode::Fifo);
    assert_eq!(config.alpha_mode, CompositeAlphaMode::Auto);
    assert_eq!((config.width, config.height), (1, 1));
    assert!(config.usage.render_attachment);
    assert!(!config.usage.texture_binding);
}

#[test]
fn initial_configuration_keeps_a_zero_size_as_given() {
    let config = SurfaceConfig::initial(PhysicalSize::new(0, 0), &capabilities());
    assert_eq!((config.width, config.height), (0, 0));
}

#[test]
fn with_size_changes_width_and_height_only() {
    let config = SurfaceConfig::initial(PhysicalSize::new(800, 600), &capabilities());
    let resized = config.with_size(PhysicalSize::new(1920, 1080));
    assert_eq!(
        resized,
        SurfaceConfig {
            usage: TextureUsage { texture_binding: false, render_attachment: true },
            format: TextureFormat::Bgra8UnormSrgb,
            width: 1920,
            height: 1080,
            present_mode: PresentMode::Mailbox,
            alpha_mode: CompositeAlphaMode::PreMultiplied,
        }
    );
    assert_eq!(config.width, 800);
}

#[test]
fn with_size_takes_the_largest_extent() {
    let config = SurfaceConfig::initial(PhysicalSize::new(800, 600), &capabilities());
    let resized = config.with_size(PhysicalSize::new(u32::MAX, u32::MAX));
    assert_eq!((resized.width, resized.height), (u32::MAX, u32::MAX));
}

#[test]
fn depth_texture_request_describes_a_single_layer_2d_texture() {
    let request = depth_texture_request(PhysicalSize::new(640, 480), TextureFormat::Depth32Float);
    assert_eq!(
        request,
        TextureRequest {
            size: Extent3d { width: 640, height: 480, depth_or_array_layers: 1 },
            mip_level_count: 1,
            sample_count: 1,
            dimension: TextureDimension::D2,
            format: TextureFormat::Depth32Float,
            usage: TextureUsage { texture_binding: true, render_attachment: true },
        }
    );
}

#[test]
fn depth_texture_request_follows_size_and_format() {
    let request = depth_texture_request(PhysicalSize::new(1, u32::MAX), TextureFormat::Depth24Plus);
    assert_eq!(request.size.width, 1);
    assert_eq!(request.size.height, u32::MAX);
    assert_eq!(request.size.depth_or_array_layers, 1);
    assert_eq!(request.format, TextureFormat::Depth24Plus);
}
