//! Mesh data preparation and the per-frame draw list.
use vstd::prelude::*;

verus! {

/// Capacity of the per-frame object buffer, in objects.
pub const MAX_OBJECTS: usize = 8192;

/// Pads `vec` with copies of `val` until it holds at least `len` elements.
pub fn pad_vec<T: Copy>(vec: &mut Vec<T>, val: T, len: usize)
    ensures
        old(vec)@.len() >= len ==> final(vec)@ == old(vec)@,
        old(vec)@.len() < len ==> final(vec)@ == old(vec)@ + Seq::new((len - old(vec)@.len()) as nat, |i: int| val),
{
    let ghost start = vec@;
    while vec.len() < len
        invariant
            start.len() <= vec@.len(),
            start.len() < len ==> vec@.len() <= len,
            start.len() >= len ==> vec@.len() == start.len(),
            vec@ == start + Seq::new((vec@.len() - start.len()) as nat, |i: int| val),
        decreases len - vec@.len(),
    {
        vec.push(val);
        assert(vec@ =~= start + Seq::new((vec@.len() - start.len()) as nat, |i: int| val));
    }
    proof {
        if start.len() >= len {
            assert(vec@ =~= start);
        }
    }
}

/// One indexed draw: the object's position in the scene doubles as its instance index, which
/// the shader uses to find the object's record in the per-frame buffer.
#[derive(Clone, Copy, Debug, PartialEq, Eq, Structural)]
pub struct DrawCall {
    pub object: usize,
    pub index_count: u32,
    pub first_instance: u32,
}

/// The draws of one frame, and whether objects beyond `MAX_OBJECTS` were left out.
pub struct DrawList {
    pub calls: Vec<DrawCall>,
    pub truncated: bool,
}

pub open spec fn drawn_count(n: nat) -> nat {
    if n <= MAX_OBJECTS { n } else { MAX_OBJECTS as nat }
}

/// The draws for a scene whose objects' meshes have these index counts, in scene order. Only
/// the first `MAX_OBJECTS` objects have a record in the per-frame buffer, so only those are
/// drawn; the buffer is never grown in the middle of a frame.
pub fn draw_list(index_counts: &[u32]) -> (r: DrawList)
    ensures
        r.calls@.len() == drawn_count(index_counts@.len()),
        r.truncated == (index_counts@.len() > MAX_OBJECTS),
        forall|i: int| 0 <= i < r.calls@.len() ==> #[trigger] r.calls@[i] == (DrawCall {
            object: i as usize,
            index_count: index_counts@[i],
            first_instance: i as u32,
        }),
{
    let n = if index_counts.len() <= MAX_OBJECTS { index_counts.len() } else { MAX_OBJECTS };
    let mut calls: Vec<DrawCall> = Vec::new();
    let mut i: usize = 0;
    while i < n
        invariant
            n == drawn_count(index_counts@.len()),
            i <= n,
            calls@.len() == i,
            forall|k: int| 0 <= k < i ==> #[trigger] calls@[k] == (DrawCall {
                object: k as usize,
                index_count: index_counts@[k],
                first_instance: k as u32,
            }),
        decreases n - i,
    {
        calls.push(DrawCall { object: i, index_count: index_counts[i], first_instance: i as u32 });
        i = i + 1;
    }
    DrawList { calls, truncated: index_counts.len() > MAX_OBJECTS }
}

/// Number of object records written to the per-frame buffer for a scene of `n` objects.
pub fn object_records(n: usize) -> (r: usize)
    ensures
        r == drawn_count(n as nat),
{
    if n <= MAX_OBJECTS { n } else { MAX_OBJECTS }
}

pub open spec fn le_u16(raw: Seq<u8>, i: int) -> u32 {
    (raw[2 * i] + 256 * raw[2 * i + 1]) as u32
}

pub open spec fn le_u32(raw: Seq<u8>, i: int) -> u32 {
    (raw[4 * i] + 256 * raw[4 * i + 1] + 65536 * raw[4 * i + 2] + 16777216 * raw[4 * i + 3]) as u32
}

/// Decodes little-endian 16-bit indices, widened to 32 bits; a trailing odd byte is ignored.
pub fn load_u16_as_u32(raw: &[u8]) -> (r: Vec<u32>)
    ensures
        r@.len() == raw@.len() / 2,
        forall|i: int| 0 <= i < r@.len() ==> #[trigger] r@[i] == le_u16(raw@, i),
{
    let len = raw.len();
    let n = len / 2;
    let mut r: Vec<u32> = Vec::new();
    let mut i: usize = 0;
    while i < n
        invariant
            len == raw@.len(),
            n == len / 2,
            i <= n,
            r@.len() == i,
            forall|k: int| 0 <= k < i ==> #[trigger] r@[k] == le_u16(raw@, k),
        decreases n - i,
    {
        let v = raw[2 * i] as u32 + 256 * raw[2 * i + 1] as u32;
        r.push(v);
        i = i + 1;
    }
    r
}

/// Decodes little-endian 32-bit indices; trailing bytes that do not fill one are ignored.
pub fn load_u32(raw: &[u8]) -> (r: Vec<u32>)
    ensures
        r@.len() == raw@.len() / 4,
        forall|i: int| 0 <= i < r@.len() ==> #[trigger] r@[i] == le_u32(raw@, i),
{
    let len = raw.len();
    let n = len / 4;
    let mut r: Vec<u32> = Vec::new();
    let mut i: usize = 0;
    while i < n
        invariant
            len == raw@.len(),
            n == len / 4,
            i <= n,
            r@.len() == i,
            forall|k: int| 0 <= k < i ==> #[trigger] r@[k] == le_u32(raw@, k),
        decreases n - i,
    {
        let v = raw[4 * i] as u32 + 256 * raw[4 * i + 1] as u32 + 65536 * raw[4 * i + 2] as u32
            + 16777216 * raw[4 * i + 3] as u32;
        r.push(v);
        i = i + 1;
    }
    r
}

} // verus!
