use vstd::prelude::*;

verus! {

/// Errors of the renderer's core.
#[derive(Debug)]
pub enum Error {
    /// A graphics API call failed with this status code.
    Vulkan(i32),
    /// A write of `size` bytes does not fit in a buffer of `max_size` bytes.
    BufferOverflow { size: u64, max_size: u64 },
    /// No barrier is defined for this pair of raw image layouts.
    UnsupportedLayoutTransition(i32, i32),
    /// No physical device meets the minimum requirements.
    UnsuitableDevice,
    /// These required extensions are not available.
    MissingExtensions(Vec<String>),
    /// These required layers are not available.
    MissingLayers(Vec<String>),
}

} // verus!
