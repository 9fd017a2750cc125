//! Choosing a physical device: queue families, a deterministic suitability score, and the
//! multisampling level to render with.
use vstd::prelude::*;

use crate::error::Error;

verus! {

/// Raw queue flag of families that support graphics work.
pub const QUEUE_GRAPHICS: u32 = 0x1;
/// Raw queue flag of families that support transfers.
pub const QUEUE_TRANSFER: u32 = 0x4;
/// Raw device type of discrete GPUs.
pub const DEVICE_TYPE_DISCRETE_GPU: i32 = 2;
/// Bonus a discrete GPU gets over other device types.
pub const DISCRETE_BONUS: u64 = 1000;

/// What a device reports about one of its queue families.
#[derive(Clone, Copy, Debug, PartialEq, Eq, Structural)]
pub struct QueueFamilyInfo {
    /// Raw queue flags.
    pub flags: u32,
    /// Whether the family can present to the window's surface.
    pub present: bool,
}

/// Indices of the queue families used for graphics, presentation and transfers.
#[derive(Clone, Copy, Debug, PartialEq, Eq, Structural)]
pub struct QueueFamilies {
    graphics: Option<u32>,
    present: Option<u32>,
    transfer: Option<u32>,
}

/// The last family index at or below `n` whose entry satisfies `f`, if any.
pub open spec fn last_family(families: Seq<QueueFamilyInfo>, n: int, f: spec_fn(QueueFamilyInfo) -> bool) -> Option<u32>
    decreases n,
{
    if n <= 0 {
        None
    } else if f(families[n - 1]) {
        Some((n - 1) as u32)
    } else {
        last_family(families, n - 1, f)
    }
}

pub open spec fn supports_graphics(q: QueueFamilyInfo) -> bool {
    q.flags & QUEUE_GRAPHICS != 0
}

pub open spec fn supports_transfer(q: QueueFamilyInfo) -> bool {
    q.flags & QUEUE_TRANSFER != 0
}

pub open spec fn supports_present(q: QueueFamilyInfo) -> bool {
    q.present
}

impl QueueFamilies {
    pub closed spec fn spec_graphics(&self) -> Option<u32> {
        self.graphics
    }

    pub closed spec fn spec_present(&self) -> Option<u32> {
        self.present
    }

    pub closed spec fn spec_transfer(&self) -> Option<u32> {
        self.transfer
    }

    /// For each role, the last family that supports it.
    pub fn find(families: &[QueueFamilyInfo]) -> (r: QueueFamilies)
        requires
            families@.len() <= u32::MAX,
        ensures
            r.spec_graphics() == last_family(families@, families@.len() as int, |q| supports_graphics(q)),
            r.spec_present() == last_family(families@, families@.len() as int, |q| supports_present(q)),
            r.spec_transfer() == last_family(families@, families@.len() as int, |q| supports_transfer(q)),
    {
        let mut r = QueueFamilies { graphics: None, present: None, transfer: None };
        let mut i: usize = 0;
        while i < families.len()
            invariant
                i <= families@.len() <= u32::MAX,
                r.graphics == last_family(families@, i as int, |q| supports_graphics(q)),
                r.present == last_family(families@, i as int, |q| supports_present(q)),
                r.transfer == last_family(families@, i as int, |q| supports_transfer(q)),
            decreases families@.len() - i,
        {
            let q = families[i];
            if q.flags & QUEUE_GRAPHICS != 0 {
                r.graphics = Some(i as u32);
            }
            if q.present {
                r.present = Some(i as u32);
            }
            if q.flags & QUEUE_TRANSFER != 0 {
                r.transfer = Some(i as u32);
            }
            i = i + 1;
        }
        r
    }

    /// Builds the indices directly.
    pub fn new(graphics: Option<u32>, present: Option<u32>, transfer: Option<u32>) -> (r: QueueFamilies)
        ensures
            r.spec_graphics() == graphics,
            r.spec_present() == present,
            r.spec_transfer() == transfer,
    {
        QueueFamilies { graphics, present, transfer }
    }

    pub fn graphics(&self) -> (r: Option<u32>)
        ensures
            r == self.spec_graphics(),
    {
        self.graphics
    }

    pub fn present(&self) -> (r: Option<u32>)
        ensures
            r == self.spec_present(),
    {
        self.present
    }

    pub fn transfer(&self) -> (r: Option<u32>)
        ensures
            r == self.spec_transfer(),
    {
        self.transfer
    }

    pub fn has_graphics(&self) -> (r: bool)
        ensures
            r == self.spec_graphics() is Some,
    {
        self.graphics.is_some()
    }

    pub fn has_present(&self) -> (r: bool)
        ensures
            r == self.spec_present() is Some,
    {
        self.present.is_some()
    }

    pub fn has_transfer(&self) -> (r: bool)
        ensures
            r == self.spec_transfer() is Some,
    {
        self.transfer.is_some()
    }
}

/// What the rating of a physical device looks at.
#[derive(Clone, Copy, Debug, PartialEq, Eq, Structural)]
pub struct DeviceProfile {
    /// Raw device type.
    pub device_type: i32,
    pub max_image_dimension_2d: u32,
    pub max_push_constants_size: u32,
    /// Whether every required extension is available.
    pub has_extensions: bool,
    /// Whether the surface reports at least one format for this device.
    pub has_formats: bool,
    /// Whether the surface reports at least one present mode for this device.
    pub has_present_modes: bool,
    pub families: QueueFamilies,
}

pub open spec fn eligible(p: DeviceProfile) -> bool {
    &&& p.has_extensions
    &&& p.has_formats
    &&& p.has_present_modes
    &&& p.families.spec_graphics() is Some
    &&& p.families.spec_present() is Some
}

pub open spec fn score_spec(p: DeviceProfile) -> u64 {
    ((if p.device_type == DEVICE_TYPE_DISCRETE_GPU { DISCRETE_BONUS } else { 0 })
        + p.max_image_dimension_2d + p.max_push_constants_size) as u64
}

/// Scores a device: `None` when it lacks a required extension, a surface format, a present
/// mode, a graphics or a present queue; otherwise a bonus for discrete GPUs plus its largest
/// 2D image dimension and push-constant size.
pub fn rate_physical_device(p: &DeviceProfile) -> (r: Option<u64>)
    ensures
        r == if eligible(*p) { Some(score_spec(*p)) } else { None::<u64> },
{
    if !p.has_extensions || !p.has_formats || !p.has_present_modes {
        return None;
    }
    if !p.families.has_graphics() || !p.families.has_present() {
        return None;
    }
    let mut score: u64 = 0;
    if p.device_type == DEVICE_TYPE_DISCRETE_GPU {
        score = DISCRETE_BONUS;
    }
    score = score + p.max_image_dimension_2d as u64;
    score = score + p.max_push_constants_size as u64;
    Some(score)
}

/// `i` is the index of an eligible device whose score no eligible device exceeds, and no
/// later eligible device scores as high.
pub open spec fn is_best(profiles: Seq<DeviceProfile>, i: int) -> bool {
    &&& 0 <= i < profiles.len()
    &&& eligible(profiles[i])
    &&& forall|j: int| 0 <= j < profiles.len() && eligible(#[trigger] profiles[j])
        ==> score_spec(profiles[j]) <= score_spec(profiles[i])
    &&& forall|j: int| i < j < profiles.len() && eligible(#[trigger] profiles[j])
        ==> score_spec(profiles[j]) < score_spec(profiles[i])
}

/// Picks the highest-scoring eligible device (the last of equals), or fails with
/// `UnsuitableDevice` when none is eligible.
pub fn pick_physical_device(profiles: &[DeviceProfile]) -> (r: Result<usize, Error>)
    ensures
        r matches Ok(i) ==> is_best(profiles@, i as int),
        r is Err <==> forall|j: int| 0 <= j < profiles@.len() ==> !eligible(#[trigger] profiles@[j]),
        r matches Err(e) ==> e == Error::UnsuitableDevice,
{
    let mut best: Option<(usize, u64)> = None;
    let mut i: usize = 0;
    while i < profiles.len()
        invariant
            i <= profiles@.len(),
            best is None ==> forall|j: int| 0 <= j < i ==> !eligible(#[trigger] profiles@[j]),
            best matches Some((b, s)) ==> {
                &&& b < i
                &&& eligible(profiles@[b as int])
                &&& s == score_spec(profiles@[b as int])
                &&& forall|j: int| 0 <= j < i && eligible(#[trigger] profiles@[j])
                    ==> score_spec(profiles@[j]) <= s
                &&& forall|j: int| b < j < i && eligible(#[trigger] profiles@[j])
                    ==> score_spec(profiles@[j]) < s
            },
        decreases profiles@.len() - i,
    {
        match rate_physical_device(&profiles[i]) {
            Some(score) => {
                match best {
                    Some((_, s)) if score < s => {},
                    _ => {
                        best = Some((i, score));
                    },
                }
            },
            None => {},
        }
        i = i + 1;
    }
    match best {
        Some((b, _)) => Ok(b),
        None => Err(Error::UnsuitableDevice),
    }
}

/// The sample count to render with: the largest power of two up to 64 present in
/// `sample_counts` and not above `ceiling`, or a single sample when there is none.
pub open spec fn msaa_spec(sample_counts: u32, ceiling: u32) -> u32
    decreases 7int,
{
    msaa_from(sample_counts, ceiling, 64)
}

pub open spec fn msaa_from(sample_counts: u32, ceiling: u32, bit: u32) -> u32
    decreases bit,
{
    if bit <= 1 {
        1
    } else if sample_counts & bit != 0 && bit <= ceiling {
        bit
    } else {
        msaa_from(sample_counts, ceiling, bit / 2)
    }
}

/// Raw sample count flags form a bit set with one bit per power of two; see `msaa_spec`.
pub fn get_max_msaa_samples(sample_counts: u32, ceiling: u32) -> (r: u32)
    ensures
        r == msaa_spec(sample_counts, ceiling),
{
    let mut bit: u32 = 64;
    while bit > 1
        invariant
            1 <= bit <= 64,
            msaa_spec(sample_counts, ceiling) == msaa_from(sample_counts, ceiling, bit),
        decreases bit,
    {
        if sample_counts & bit != 0 && bit <= ceiling {
            return bit;
        }
        bit = bit / 2;
    }
    1
}

/// `available` holds `name`.
pub open spec fn offers(available: Seq<Vec<u8>>, name: Seq<u8>) -> bool {
    exists|j: int| 0 <= j < available.len() && #[trigger] available[j]@ == name
}

/// Indices of the names of `required` that `available` does not hold.
pub fn get_missing_extensions(required: &[Vec<u8>], available: &[Vec<u8>]) -> (r: Vec<usize>)
    ensures
        forall|k: int| 0 <= k < r@.len() ==> #[trigger] r@[k] < required@.len(),
        forall|a: int, b: int| 0 <= a < b < r@.len() ==> r@[a] < r@[b],
        forall|i: int| 0 <= i < required@.len() ==> (r@.contains(i as usize) <==> !offers(
            available@,
            #[trigger] required@[i]@,
        )),
{
    let mut missing: Vec<usize> = Vec::new();
    let mut i: usize = 0;
    while i < required.len()
        invariant
            i <= required@.len(),
            forall|k: int| 0 <= k < missing@.len() ==> #[trigger] missing@[k] < i,
            forall|a: int, b: int| 0 <= a < b < missing@.len() ==> missing@[a] < missing@[b],
            forall|m: int| 0 <= m < i ==> (missing@.contains(m as usize) <==> !offers(
                available@,
                #[trigger] required@[m]@,
            )),
        decreases required@.len() - i,
    {
        let mut found = false;
        let mut j: usize = 0;
        while j < available.len()
            invariant
                j <= available@.len(),
                i < required@.len(),
                found <==> exists|k: int| 0 <= k < j && #[trigger] available@[k]@ == required@[i as int]@,
            decreases available@.len() - j,
        {
            if bytes_equal(&available[j], &required[i]) {
                found = true;
            }
            j = j + 1;
        }
        let ghost before = missing@;
        if !found {
            missing.push(i);
        }
        proof {
            assert forall|m: int| 0 <= m < i + 1 implies (missing@.contains(m as usize) <==> !offers(
                available@,
                #[trigger] required@[m]@,
            )) by {
                if m < i {
                    if missing@.contains(m as usize) && !before.contains(m as usize) {
                        assert(missing@.last() == i);
                        let k = choose|k: int| 0 <= k < missing@.len() && missing@[k] == m as usize;
                        if k < before.len() {
                            assert(before[k] == missing@[k]);
                        }
                    }
                    if before.contains(m as usize) {
                        let k = choose|k: int| 0 <= k < before.len() && before[k] == m as usize;
                        assert(missing@[k] == before[k]);
                    }
                } else {
                    if !found {
                        assert(missing@[missing@.len() - 1] == i);
                    } else {
                        if missing@.contains(m as usize) {
                            let k = choose|k: int| 0 <= k < missing@.len() && missing@[k] == m as usize;
                            assert(before[k] < i);
                        }
                    }
                }
            }
        }
        i = i + 1;
    }
    missing
}

fn bytes_equal(a: &Vec<u8>, b: &Vec<u8>) -> (r: bool)
    ensures
        r == (a@ == b@),
{
    if a.len() != b.len() {
        return false;
    }
    let mut i: usize = 0;
    while i < a.len()
        invariant
            i <= a@.len() == b@.len(),
            forall|k: int| 0 <= k < i ==> a@[k] == b@[k],
        decreases a@.len() - i,
    {
        if a[i] != b[i] {
            return false;
        }
        i = i + 1;
    }
    assert(a@ =~= b@);
    true
}

} // verus!
