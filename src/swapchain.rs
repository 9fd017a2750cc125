use vstd::prelude::*;

verus! {

/// The largest number of images a swapchain may hold; per-image resources are sized by it.
pub const MAX_FRAMES: usize = 5;

/// A surface format as the presentation engine reports it: the raw image format and the raw
/// color space.
#[derive(Clone, Copy, Debug, PartialEq, Eq, Structural)]
pub struct SurfaceFormat {
    pub format: i32,
    pub color_space: i32,
}

/// Raw value of the 8-bit BGRA sRGB image format, the preferred swapchain format.
pub const FORMAT_B8G8R8A8_SRGB: i32 = 50;
/// Raw value of the non-linear sRGB color space.
pub const COLOR_SPACE_SRGB_NONLINEAR: i32 = 0;
/// Raw value of the immediate present mode, the one requested.
pub const PRESENT_MODE_IMMEDIATE: i32 = 0;
/// Raw value of the FIFO present mode, which every device supports.
pub const PRESENT_MODE_FIFO: i32 = 2;
/// A surface reports this width when the swapchain may choose its own extent.
pub const EXTENT_UNDEFINED: u32 = 0xFFFF_FFFF;

/// A two-dimensional size in pixels.
#[derive(Clone, Copy, Debug, PartialEq, Eq, Structural)]
pub struct Extent {
    pub width: u32,
    pub height: u32,
}

/// What a surface reports about the swapchains it accepts.
#[derive(Clone, Copy, Debug, PartialEq, Eq, Structural)]
pub struct SurfaceCapabilities {
    pub min_image_count: u32,
    /// Zero when there is no maximum.
    pub max_image_count: u32,
    pub current_extent: Extent,
    pub min_image_extent: Extent,
    pub max_image_extent: Extent,
}

pub open spec fn is_preferred_format(f: SurfaceFormat) -> bool {
    f.format == FORMAT_B8G8R8A8_SRGB && f.color_space == COLOR_SPACE_SRGB_NONLINEAR
}

/// Picks the preferred sRGB format when the surface offers it, else the first one offered.
pub fn pick_format(formats: &[SurfaceFormat]) -> (r: SurfaceFormat)
    requires
        formats@.len() > 0,
    ensures
        (exists|i: int| 0 <= i < formats@.len() && is_preferred_format(#[trigger] formats@[i]))
            ==> is_preferred_format(r),
        !(exists|i: int| 0 <= i < formats@.len() && is_preferred_format(#[trigger] formats@[i]))
            ==> r == formats@[0],
        formats@.contains(r),
{
    let mut i: usize = 0;
    while i < formats.len()
        invariant
            i <= formats@.len(),
            forall|j: int| 0 <= j < i ==> !is_preferred_format(#[trigger] formats@[j]),
        decreases formats@.len() - i,
    {
        let f = formats[i];
        if f.format == FORMAT_B8G8R8A8_SRGB && f.color_space == COLOR_SPACE_SRGB_NONLINEAR {
            return f;
        }
        i = i + 1;
    }
    formats[0]
}

/// Picks `preferred` when the surface offers it, else FIFO, which is always available.
pub fn pick_present_mode(modes: &[i32], preferred: i32) -> (r: i32)
    ensures
        r == if modes@.contains(preferred) { preferred } else { PRESENT_MODE_FIFO },
{
    let mut i: usize = 0;
    while i < modes.len()
        invariant
            i <= modes@.len(),
            forall|j: int| 0 <= j < i ==> modes@[j] != preferred,
        decreases modes@.len() - i,
    {
        if modes[i] == preferred {
            return preferred;
        }
        i = i + 1;
    }
    assert(!modes@.contains(preferred));
    PRESENT_MODE_FIFO
}

pub open spec fn clamp_spec(v: u32, lo: u32, hi: u32) -> u32 {
    if v > hi {
        if hi >= lo { hi } else { lo }
    } else if v < lo {
        lo
    } else {
        v
    }
}

fn clamp(v: u32, lo: u32, hi: u32) -> (r: u32)
    ensures
        r == clamp_spec(v, lo, hi),
{
    let upper = if v > hi { hi } else { v };
    if upper < lo { lo } else { upper }
}

/// The swapchain extent: the surface's own extent when it fixes one, else the window's
/// framebuffer size clamped to the surface's limits.
pub fn pick_extent(framebuffer_width: u32, framebuffer_height: u32, caps: &SurfaceCapabilities) -> (r: Extent)
    ensures
        caps.current_extent.width != EXTENT_UNDEFINED ==> r == caps.current_extent,
        caps.current_extent.width == EXTENT_UNDEFINED ==> r == (Extent {
            width: clamp_spec(framebuffer_width, caps.min_image_extent.width, caps.max_image_extent.width),
            height: clamp_spec(framebuffer_height, caps.min_image_extent.height, caps.max_image_extent.height),
        }),
{
    if caps.current_extent.width != EXTENT_UNDEFINED {
        return caps.current_extent;
    }
    Extent {
        width: clamp(framebuffer_width, caps.min_image_extent.width, caps.max_image_extent.width),
        height: clamp(framebuffer_height, caps.min_image_extent.height, caps.max_image_extent.height),
    }
}

pub open spec fn image_count_spec(caps: SurfaceCapabilities) -> int {
    let wanted = if caps.min_image_count as int + 1 <= MAX_FRAMES as int {
        caps.min_image_count as int + 1
    } else {
        MAX_FRAMES as int
    };
    if caps.max_image_count != 0 && (caps.max_image_count as int) < wanted {
        caps.max_image_count as int
    } else {
        wanted
    }
}

/// Number of images to ask for: one more than the surface's minimum, capped by
/// `MAX_FRAMES` and by the surface's maximum when it has one.
pub fn image_count(caps: &SurfaceCapabilities) -> (r: u32)
    ensures
        r == image_count_spec(*caps),
        r <= MAX_FRAMES,
{
    let mut count: u32 = if caps.min_image_count < MAX_FRAMES as u32 {
        caps.min_image_count + 1
    } else {
        MAX_FRAMES as u32
    };
    if caps.max_image_count != 0 && caps.max_image_count < count {
        count = caps.max_image_count;
    }
    count
}

/// The distinct queue families the graphics and present queues come from: one when they
/// coincide, else both, graphics first. Queues are created for each, and a swapchain shared
/// by two families is created concurrent over both.
pub fn distinct_families(graphics: u32, present: u32) -> (r: Vec<u32>)
    ensures
        graphics == present ==> r@ == seq![graphics],
        graphics != present ==> r@ == seq![graphics, present],
{
    if graphics == present {
        vec![graphics]
    } else {
        vec![graphics, present]
    }
}

} // verus!
