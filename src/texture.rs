use vstd::prelude::*;

use crate::error::Error;
use crate::swapchain::Extent;

verus! {

/// Number of times `n` can be halved (rounding down) before reaching one.
pub open spec fn floor_log2(n: nat) -> nat
    decreases n,
{
    if n <= 1 {
        0
    } else {
        1 + floor_log2(n / 2)
    }
}

pub open spec fn pow2(k: nat) -> nat
    decreases k,
{
    if k == 0 {
        1
    } else {
        2 * pow2((k - 1) as nat)
    }
}

proof fn lemma_floor_log2_below(n: nat, k: nat)
    requires
        n < pow2(k),
        k >= 1,
    ensures
        floor_log2(n) < k,
    decreases k,
{
    assert(pow2(k) == 2 * pow2((k - 1) as nat));
    if n > 1 && k > 1 {
        assert(n / 2 < pow2((k - 1) as nat));
        lemma_floor_log2_below(n / 2, (k - 1) as nat);
    } else if k == 1 {
        assert(pow2(0) == 1);
    }
}

/// Number of mip levels of a full chain for an image of the given size: one level for
/// each halving of the larger side, plus the base level.
pub fn calculate_mip_levels(width: u32, height: u32) -> (r: u32)
    ensures
        r == floor_log2(if width >= height { width as nat } else { height as nat }) + 1,
{
    let mut m: u32 = if width >= height { width } else { height };
    proof {
        reveal_with_fuel(pow2, 33);
        lemma_floor_log2_below(m as nat, 32);
    }
    let mut levels: u32 = 1;
    while m > 1
        invariant
            floor_log2((if width >= height { width as nat } else { height as nat }))
                == floor_log2(m as nat) + levels - 1,
            1 <= levels,
            levels + floor_log2(m as nat) <= 32,
        decreases m,
    {
        m = m / 2;
        levels = levels + 1;
    }
    levels
}

/// Raw image layouts the texture code moves between.
pub const LAYOUT_UNDEFINED: i32 = 0;
pub const LAYOUT_SHADER_READ_ONLY_OPTIMAL: i32 = 5;
pub const LAYOUT_TRANSFER_SRC_OPTIMAL: i32 = 6;
pub const LAYOUT_TRANSFER_DST_OPTIMAL: i32 = 7;

/// Raw access flags.
pub const ACCESS_NONE: u32 = 0;
pub const ACCESS_SHADER_READ: u32 = 0x20;
pub const ACCESS_TRANSFER_WRITE: u32 = 0x1000;

/// Raw pipeline stage flags.
pub const STAGE_TOP_OF_PIPE: u32 = 0x1;
pub const STAGE_FRAGMENT_SHADER: u32 = 0x80;
pub const STAGE_TRANSFER: u32 = 0x1000;

/// Raw image usage flags.
pub const IMAGE_USAGE_TRANSFER_SRC: u32 = 0x1;
pub const IMAGE_USAGE_TRANSFER_DST: u32 = 0x2;
pub const IMAGE_USAGE_SAMPLED: u32 = 0x4;
pub const IMAGE_USAGE_DEPTH_STENCIL_ATTACHMENT: u32 = 0x20;

/// Raw value of the 8-bit RGBA sRGB format.
pub const FORMAT_R8G8B8A8_SRGB: i32 = 43;

/// The aspect of a texture.
#[derive(Clone, Copy, Debug, PartialEq, Eq, Structural)]
pub enum TextureType {
    Color,
    Depth,
}

/// What a texture is created from.
#[derive(Clone, Copy, Debug, PartialEq, Eq, Structural)]
pub struct TextureInfo {
    pub width: u32,
    pub height: u32,
    /// Upper bound on the mip levels; zero asks for the full chain.
    pub mip_levels: u32,
    pub ty: TextureType,
    /// Raw pixel format.
    pub format: i32,
}

impl Default for TextureInfo {
    /// A 512 by 512 color texture in 8-bit RGBA sRGB with one mip level.
    fn default() -> (r: Self)
        ensures
            r == (TextureInfo { width: 512, height: 512, mip_levels: 1, ty: TextureType::Color, format: FORMAT_R8G8B8A8_SRGB }),
    {
        TextureInfo { width: 512, height: 512, mip_levels: 1, ty: TextureType::Color, format: FORMAT_R8G8B8A8_SRGB }
    }
}

pub open spec fn full_chain(width: u32, height: u32) -> nat {
    floor_log2(if width >= height { width as nat } else { height as nat }) + 1
}

pub open spec fn mip_levels_spec(info: TextureInfo) -> nat {
    let full = full_chain(info.width, info.height);
    if info.mip_levels != 0 && (info.mip_levels as nat) < full { info.mip_levels as nat } else { full }
}

/// Mip levels a texture gets: the full chain for its size, capped by the requested count
/// unless that is zero.
pub fn effective_mip_levels(info: &TextureInfo) -> (r: u32)
    ensures
        r == mip_levels_spec(*info),
{
    let full = calculate_mip_levels(info.width, info.height);
    if info.mip_levels != 0 && info.mip_levels < full { info.mip_levels } else { full }
}

pub open spec fn usage_spec(ty: TextureType, mip_levels: u32) -> u32 {
    (match ty {
        TextureType::Color => IMAGE_USAGE_TRANSFER_DST | IMAGE_USAGE_SAMPLED,
        TextureType::Depth => IMAGE_USAGE_DEPTH_STENCIL_ATTACHMENT,
    }) | (if mip_levels > 1 { IMAGE_USAGE_TRANSFER_SRC } else { 0 })
}

/// Raw image usage flags: color textures are uploaded to and sampled, depth textures are
/// attachments, and a texture with several mip levels is also a blit source.
pub fn image_usage(ty: TextureType, mip_levels: u32) -> (r: u32)
    ensures
        r == usage_spec(ty, mip_levels),
{
    let base = match ty {
        TextureType::Color => IMAGE_USAGE_TRANSFER_DST | IMAGE_USAGE_SAMPLED,
        TextureType::Depth => IMAGE_USAGE_DEPTH_STENCIL_ATTACHMENT,
    };
    base | if mip_levels > 1 { IMAGE_USAGE_TRANSFER_SRC } else { 0 }
}

/// Access masks and stages of an image layout transition barrier.
#[derive(Clone, Copy, Debug, PartialEq, Eq, Structural)]
pub struct TransitionMasks {
    pub src_access: u32,
    pub dst_access: u32,
    pub src_stage: u32,
    pub dst_stage: u32,
}

/// The barrier for a layout transition. Two transitions are defined: undefined to transfer
/// destination, before an upload, and transfer destination to shader read, after it. Any
/// other pair fails with `UnsupportedLayoutTransition`.
pub fn transition_masks(old_layout: i32, new_layout: i32) -> (r: Result<TransitionMasks, Error>)
    ensures
        (old_layout == LAYOUT_UNDEFINED && new_layout == LAYOUT_TRANSFER_DST_OPTIMAL) ==> r == Ok::<TransitionMasks, Error>(
            TransitionMasks {
                src_access: ACCESS_NONE,
                dst_access: ACCESS_TRANSFER_WRITE,
                src_stage: STAGE_TOP_OF_PIPE,
                dst_stage: STAGE_TRANSFER,
            },
        ),
        (old_layout == LAYOUT_TRANSFER_DST_OPTIMAL && new_layout == LAYOUT_SHADER_READ_ONLY_OPTIMAL) ==> r
            == Ok::<TransitionMasks, Error>(
            TransitionMasks {
                src_access: ACCESS_TRANSFER_WRITE,
                dst_access: ACCESS_SHADER_READ,
                src_stage: STAGE_TRANSFER,
                dst_stage: STAGE_FRAGMENT_SHADER,
            },
        ),
        !(old_layout == LAYOUT_UNDEFINED && new_layout == LAYOUT_TRANSFER_DST_OPTIMAL) && !(old_layout
            == LAYOUT_TRANSFER_DST_OPTIMAL && new_layout == LAYOUT_SHADER_READ_ONLY_OPTIMAL) ==> r
            == Err::<TransitionMasks, Error>(Error::UnsupportedLayoutTransition(old_layout, new_layout)),
{
    if old_layout == LAYOUT_UNDEFINED && new_layout == LAYOUT_TRANSFER_DST_OPTIMAL {
        Ok(
            TransitionMasks {
                src_access: ACCESS_NONE,
                dst_access: ACCESS_TRANSFER_WRITE,
                src_stage: STAGE_TOP_OF_PIPE,
                dst_stage: STAGE_TRANSFER,
            },
        )
    } else if old_layout == LAYOUT_TRANSFER_DST_OPTIMAL && new_layout == LAYOUT_SHADER_READ_ONLY_OPTIMAL {
        Ok(
            TransitionMasks {
                src_access: ACCESS_TRANSFER_WRITE,
                dst_access: ACCESS_SHADER_READ,
                src_stage: STAGE_TRANSFER,
                dst_stage: STAGE_FRAGMENT_SHADER,
            },
        )
    } else {
        Err(Error::UnsupportedLayoutTransition(old_layout, new_layout))
    }
}

/// A side of mip level `n` of an image whose base side is `x`: halved per level, never
/// below one pixel.
pub open spec fn mip_side(x: u32, n: nat) -> u32
    decreases n,
{
    if n == 0 {
        x
    } else {
        let p = mip_side(x, (n - 1) as nat);
        if p > 1 { p / 2 } else { 1 }
    }
}

/// One blit of a mip chain: level `level - 1`, of extent `src`, is scaled into level
/// `level`, of extent `dst`.
#[derive(Clone, Copy, Debug, PartialEq, Eq, Structural)]
pub struct MipBlit {
    pub level: u32,
    pub src: Extent,
    pub dst: Extent,
}

/// The blits that fill levels one to `mip_levels - 1` of an image of the given size, in order.
pub fn mip_chain(width: u32, height: u32, mip_levels: u32) -> (r: Vec<MipBlit>)
    ensures
        r@.len() == if mip_levels == 0 { 0 } else { mip_levels - 1 },
        forall|i: int| 0 <= i < r@.len() ==> #[trigger] r@[i] == (MipBlit {
            level: (i + 1) as u32,
            src: Extent { width: mip_side(width, i as nat), height: mip_side(height, i as nat) },
            dst: Extent { width: mip_side(width, (i + 1) as nat), height: mip_side(height, (i + 1) as nat) },
        }),
{
    let mut r: Vec<MipBlit> = Vec::new();
    let mut w: u32 = width;
    let mut h: u32 = height;
    let mut level: u32 = 1;
    while level < mip_levels
        invariant
            1 <= level,
            mip_levels >= 1 ==> level <= mip_levels,
            mip_levels == 0 ==> level == 1,
            r@.len() == level - 1,
            w == mip_side(width, (level - 1) as nat),
            h == mip_side(height, (level - 1) as nat),
            forall|i: int| 0 <= i < r@.len() ==> #[trigger] r@[i] == (MipBlit {
                level: (i + 1) as u32,
                src: Extent { width: mip_side(width, i as nat), height: mip_side(height, i as nat) },
                dst: Extent { width: mip_side(width, (i + 1) as nat), height: mip_side(height, (i + 1) as nat) },
            }),
        decreases mip_levels - level,
    {
        let nw: u32 = if w > 1 { w / 2 } else { 1 };
        let nh: u32 = if h > 1 { h / 2 } else { 1 };
        r.push(MipBlit { level, src: Extent { width: w, height: h }, dst: Extent { width: nw, height: nh } });
        w = nw;
        h = nh;
        level = level + 1;
    }
    r
}

} // verus!
