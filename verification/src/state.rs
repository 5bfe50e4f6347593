//! The lifecycle of a render context as a mathematical state: what the
//! context holds, and how construction, a resize and the caching of a depth
//! view change it.

use crate::depth::{spec_depth_texture_request, TextureRequest};
use crate::surface::{SurfaceCapabilities, SurfaceConfig, TextureUsage};
use vstd::prelude::*;
use wgpu::TextureFormat;
use winit::dpi::PhysicalSize;

verus! {

/// A cached depth view, with the size of the texture it looks at.
#[derive(Debug)]
pub struct DepthView<T> {
    pub view: T,
    pub size: PhysicalSize<u32>,
}

/// What the owner of the surface and the device has to carry out after a
/// step of the lifecycle.
#[derive(Clone, Copy, Debug, PartialEq, Eq)]
pub struct Plan {
    /// The configuration to apply to the surface, if it changed.
    pub configure: Option<SurfaceConfig>,
    /// The depth texture to create at once, if one is due.
    pub depth_texture: Option<TextureRequest>,
}

/// The state of a render context whose depth views are of type `T`.
pub struct ContextState<T> {
    pub config: SurfaceConfig,
    pub size: PhysicalSize<u32>,
    pub depth_format: TextureFormat,
    pub depth_view: Option<DepthView<T>>,
}

/// A surface of this size can be configured: neither dimension is zero.
pub open spec fn presentable(size: PhysicalSize<u32>) -> bool {
    size.width > 0 && size.height > 0
}

impl Plan {
    /// The plan that asks for nothing.
    pub open spec fn idle() -> Plan {
        Plan { configure: None, depth_texture: None }
    }
}

impl<T> ContextState<T> {
    /// The configuration mirrors the size, the surface is a render target,
    /// depth is 32-bit floating point, and a cached depth view looks at a
    /// texture of the current size.
    pub open spec fn wf(self) -> bool {
        &&& self.config.width == self.size.width
        &&& self.config.height == self.size.height
        &&& self.config.usage == TextureUsage { texture_binding: false, render_attachment: true }
        &&& self.depth_format == TextureFormat::Depth32Float
        &&& self.depth_view matches Some(depth) ==> depth.size == self.size
    }

    /// The state a context starts in: configured for the given size from the
    /// surface's capabilities, and without a depth view.
    pub open spec fn initial(size: PhysicalSize<u32>, capabilities: &SurfaceCapabilities) -> Self {
        ContextState {
            config: SurfaceConfig::spec_initial(size, capabilities),
            size,
            depth_format: TextureFormat::Depth32Float,
            depth_view: None,
        }
    }

    /// The depth view that is cached, if any.
    pub open spec fn depth_texture_view(self) -> Option<T> {
        match self.depth_view {
            Some(depth) => Some(depth.view),
            None => None,
        }
    }

    /// The depth texture that has to be created before a depth view can be
    /// handed out: none while a view is cached.
    pub open spec fn pending_depth_texture(self) -> Option<TextureRequest> {
        if self.depth_view is None {
            Some(spec_depth_texture_request(self.size, self.depth_format))
        } else {
            None
        }
    }

    /// The state after caching a view of a depth texture of the current size.
    pub open spec fn attach_depth_view(self, view: T) -> Self {
        ContextState { depth_view: Some(DepthView { view, size: self.size }), ..self }
    }

    /// The state after a resize: unchanged for a size that cannot be
    /// presented; else of the new size, with any cached depth view discarded.
    pub open spec fn resize(self, new_size: PhysicalSize<u32>) -> Self {
        if presentable(new_size) {
            ContextState {
                config: self.config.spec_with_size(new_size),
                size: new_size,
                depth_format: self.depth_format,
                depth_view: None,
            }
        } else {
            self
        }
    }

    /// What a resize asks for: nothing for a size that cannot be presented;
    /// else the surface's configuration for the new size, and a depth texture
    /// of the new size exactly if a depth view was cached.
    pub open spec fn resize_plan(self, new_size: PhysicalSize<u32>) -> Plan {
        if presentable(new_size) {
            Plan {
                configure: Some(self.config.spec_with_size(new_size)),
                depth_texture: if self.depth_view is Some {
                    Some(spec_depth_texture_request(new_size, self.depth_format))
                } else {
                    None
                },
            }
        } else {
            Plan::idle()
        }
    }
}

/// A context starts well formed, of the given size, configured from the
/// surface's capabilities, and without a depth view.
pub proof fn lemma_initial_state<T>(size: PhysicalSize<u32>, capabilities: &SurfaceCapabilities)
    ensures
        ContextState::<T>::initial(size, capabilities).wf(),
        ContextState::<T>::initial(size, capabilities).size == size,
        ContextState::<T>::initial(size, capabilities).depth_view is None,
        ContextState::<T>::initial(size, capabilities).config == SurfaceConfig::spec_initial(
            size,
            capabilities,
        ),
{
}

/// Caching a depth view and resizing keep a well-formed state well formed:
/// in every state that the lifecycle reaches, the configuration has the
/// width and height of the size, and a cached depth view looks at a texture
/// of that size.
pub proof fn lemma_steps_preserve_wf<T>(
    state: ContextState<T>,
    new_size: PhysicalSize<u32>,
    view: T,
)
    requires
        state.wf(),
    ensures
        state.attach_depth_view(view).wf(),
        state.resize(new_size).wf(),
{
}

/// A depth texture is asked for exactly while no depth view is cached.  Once
/// the view made for it is cached, looking the view up returns that same
/// view however often it is done, and no further texture is asked for.
pub proof fn lemma_depth_view_is_created_once<T>(state: ContextState<T>, view: T)
    requires
        state.wf(),
        state.depth_view is None,
    ensures
        state.depth_texture_view() is None,
        state.pending_depth_texture() == Some(
            spec_depth_texture_request(state.size, state.depth_format),
        ),
        state.attach_depth_view(view).depth_texture_view() == Some(view),
        state.attach_depth_view(view).pending_depth_texture() is None,
{
}

/// A resize to a size that can be presented never keeps a cached depth
/// view: the view is discarded, the plan asks for a depth texture of the new
/// width and height, and the view cached for it is recorded with the new
/// size.
pub proof fn lemma_resize_replaces_depth_view<T>(
    state: ContextState<T>,
    new_size: PhysicalSize<u32>,
    view: T,
)
    requires
        state.wf(),
        state.depth_view is Some,
        presentable(new_size),
    ensures
        state.resize(new_size).depth_view is None,
        state.resize_plan(new_size).depth_texture == Some(
            spec_depth_texture_request(new_size, state.depth_format),
        ),
        state.resize_plan(new_size).depth_texture->0.size.width == new_size.width,
        state.resize_plan(new_size).depth_texture->0.size.height == new_size.height,
        state.resize(new_size).attach_depth_view(view).depth_view == Some(
            DepthView { view, size: new_size },
        ),
{
}

/// A resize creates no depth view where none was cached: the state stays
/// without one, and the plan asks for no depth texture.
pub proof fn lemma_resize_stays_lazy<T>(state: ContextState<T>, new_size: PhysicalSize<u32>)
    requires
        state.depth_view is None,
    ensures
        state.resize(new_size).depth_view is None,
        state.resize_plan(new_size).depth_texture is None,
{
}

/// A resize to a size with a zero width or a zero height changes nothing:
/// size, configuration and depth view stay as they were, and the plan asks
/// for nothing.
pub proof fn lemma_degenerate_resize_is_ignored<T>(
    state: ContextState<T>,
    new_size: PhysicalSize<u32>,
)
    requires
        new_size.width == 0 || new_size.height == 0,
    ensures
        state.resize(new_size) == state,
        state.resize_plan(new_size) == Plan::idle(),
{
}

/// After a resize to a size that can be presented, the size is the new size
/// and the configuration has exactly its width and height; format, present
/// mode, alpha mode and usage are kept, and the plan hands out that
/// configuration to be applied.
pub proof fn lemma_resize_configures_new_size<T>(
    state: ContextState<T>,
    new_size: PhysicalSize<u32>,
)
    requires
        presentable(new_size),
    ensures
        state.resize(new_size).size == new_size,
        state.resize(new_size).config.width == new_size.width,
        state.resize(new_size).config.height == new_size.height,
        state.resize(new_size).config.format == state.config.format,
        state.resize(new_size).config.present_mode == state.config.present_mode,
        state.resize(new_size).config.alpha_mode == state.config.alpha_mode,
        state.resize(new_size).config.usage == state.config.usage,
        state.resize(new_size).depth_format == state.depth_format,
        state.resize_plan(new_size).configure == Some(state.resize(new_size).config),
{
}

} // verus!
