//! The core of a small renderer on an explicit graphics API: the per-frame synchronization
//! protocol, the descriptor pool allocator, buffer write checks, swapchain and device
//! selection, and the resource cache. Device calls are made by the caller.
use vstd::prelude::*;

pub mod buffer;
pub mod clock;
pub mod color;
pub mod descriptors;
pub mod device;
pub mod error;
pub mod frame;
pub mod logger;
pub mod mesh;
pub mod resources;
pub mod scene;
pub mod swapchain;
pub mod texture;

verus! {

} // verus!
