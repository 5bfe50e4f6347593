//! The render context: the configuration of a surface, its size, and a depth
//! view that is created on first use and replaced when the size changes.
//!
//! The context decides; the owner of the surface and the device carries out.
//! Every step that touches the surface or needs a texture returns what has to
//! be done, and a depth view, once made, is handed back to be cached.

use crate::depth::{depth_texture_request, TextureRequest};
use crate::format::preferred_format;
use crate::state::{presentable, ContextState, DepthView, Plan};
use crate::surface::{SurfaceCapabilities, SurfaceConfig};
use vstd::prelude::*;
use wgpu::TextureFormat;
use winit::dpi::PhysicalSize;

verus! {

/// The lifecycle of a surface and its depth buffer, for depth views of type
/// `T`.
pub struct Context<T> {
    config: SurfaceConfig,
    size: PhysicalSize<u32>,
    depth_format: TextureFormat,
    depth_texture_view: Option<DepthView<T>>,
}

impl<T> View for Context<T> {
    type V = ContextState<T>;

    closed spec fn view(&self) -> ContextState<T> {
        ContextState {
            config: self.config,
            size: self.size,
            depth_format: self.depth_format,
            depth_view: self.depth_texture_view,
        }
    }
}

impl<T> Context<T> {
    #[verifier::type_invariant]
    spec fn well_formed(self) -> bool {
        self@.wf()
    }

    /// Starts the lifecycle of a surface of the given size: the surface is a
    /// render target in the preferred format, of that size, with the first
    /// present mode and alpha mode it supports; depth is 32-bit floating
    /// point, and no depth view exists yet.  The plan holds the configuration
    /// to apply to the surface before anything is presented, and asks for no
    /// depth texture.
    pub fn new(size: PhysicalSize<u32>, capabilities: &SurfaceCapabilities) -> (started: (Self, Plan))
        requires
            capabilities.usable(),
        ensures
            started.0@ == ContextState::<T>::initial(size, capabilities),
            started.0@.wf(),
            started.0@.size == size,
            started.0@.config.format == preferred_format(capabilities.formats@),
            started.0@.depth_view is None,
            started.1 == (Plan { configure: Some(started.0@.config), depth_texture: None }),
    {
        let config = SurfaceConfig::initial(size, capabilities);
        let context = Context {
            config,
            size,
            depth_format: TextureFormat::Depth32Float,
            depth_texture_view: None,
        };
        (context, Plan { configure: Some(config), depth_texture: None })
    }

    /// The configuration the surface is presented with.
    pub fn config(&self) -> (config: &SurfaceConfig)
        ensures
            *config == self@.config,
            self@.wf(),
    {
        proof {
            use_type_invariant(self);
        }
        &self.config
    }

    /// The size of the surface in physical pixels.
    pub fn size(&self) -> (size: &PhysicalSize<u32>)
        ensures
            *size == self@.size,
            self@.wf(),
    {
        proof {
            use_type_invariant(self);
        }
        &self.size
    }

    /// The format of the depth texture.
    pub fn depth_format(&self) -> (format: &TextureFormat)
        ensures
            *format == self@.depth_format,
            *format == TextureFormat::Depth32Float,
    {
        proof {
            use_type_invariant(self);
        }
        &self.depth_format
    }

    /// The cached depth view, if one has been made for the current size.
    pub fn depth_texture_view(&self) -> (view: Option<&T>)
        ensures
            view is Some <==> self@.depth_view is Some,
            view matches Some(v) ==> self@.depth_texture_view() == Some(*v),
            self@.wf(),
    {
        proof {
            use_type_invariant(self);
        }
        match &self.depth_texture_view {
            Some(depth) => Some(&depth.view),
            None => None,
        }
    }

    /// The depth texture to create before a depth view can be handed out:
    /// one of the current size while no view is cached, none afterwards.
    pub fn pending_depth_texture(&self) -> (request: Option<TextureRequest>)
        ensures
            request == self@.pending_depth_texture(),
            self@.wf(),
    {
        proof {
            use_type_invariant(self);
        }
        if self.depth_texture_view.is_none() {
            Some(depth_texture_request(self.size, self.depth_format))
        } else {
            None
        }
    }

    /// Caches a view of a depth texture made for the current size.
    pub fn attach_depth_view(&mut self, view: T)
        ensures
            final(self)@ == old(self)@.attach_depth_view(view),
            final(self)@.wf(),
    {
        proof {
            use_type_invariant(&*self);
        }
        self.depth_texture_view = Some(DepthView { view, size: self.size });
    }

    /// Follows a change of the window's size.  A size with a zero dimension
    /// is ignored.  Any other size becomes the context's size and that of
    /// its configuration, which the plan hands out to be applied again; a
    /// cached depth view is discarded, and the plan then asks for a depth
    /// texture of the new size.
    pub fn resize(&mut self, new_size: PhysicalSize<u32>) -> (plan: Plan)
        ensures
            final(self)@ == old(self)@.resize(new_size),
            plan == old(self)@.resize_plan(new_size),
            final(self)@.wf(),
            !presentable(new_size) ==> final(self)@ == old(self)@ && plan == Plan::idle(),
            presentable(new_size) ==> final(self)@.size == new_size
                && final(self)@.config.width == new_size.width
                && final(self)@.config.height == new_size.height
                && final(self)@.depth_view is None
                && plan.configure == Some(final(self)@.config),
            old(self)@.depth_view is None ==> final(self)@.depth_view is None
                && plan.depth_texture is None,
    {
        proof {
            use_type_invariant(&*self);
        }
        if new_size.width > 0 && new_size.height > 0 {
            let config = self.config.with_size(new_size);
            let depth_texture = if self.depth_texture_view.is_some() {
                Some(depth_texture_request(new_size, self.depth_format))
            } else {
                None
            };
            *self = Context {
                config,
                size: new_size,
                depth_format: self.depth_format,
                depth_texture_view: None,
            };
            Plan { configure: Some(config), depth_texture }
        } else {
            Plan { configure: None, depth_texture: None }
        }
    }
}

} // verus!
