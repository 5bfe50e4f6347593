//! The lifecycle of a window's render context: which format and
//! configuration its surface is presented with, when that configuration has
//! to be applied again, and when the depth texture behind the depth view is
//! created and replaced.
//!
//! The library decides and keeps the books; it never touches a window, a
//! surface or a device.  Whoever owns those starts a [`Context`] from the
//! window's size and the surface's capabilities, forwards resizes to it, and
//! carries out the plans it returns.

pub mod context;
pub mod depth;
pub mod format;
pub mod gpu;
pub mod state;
pub mod surface;

pub use crate::context::Context;
pub use crate::depth::{depth_texture_request, TextureRequest};
pub use crate::format::{preferred_format_index, select_surface_format};
pub use crate::state::{DepthView, Plan};
pub use crate::surface::{SurfaceCapabilities, SurfaceConfig, TextureUsage};
