//! The per-frame protocol of the renderer: which fence to wait on, which image to record,
//! when to rebuild the swapchain. The device work itself is done by the caller, which performs
//! each returned action and reports its outcome as the next event.
use vstd::prelude::*;

use crate::swapchain::{SurfaceFormat, MAX_FRAMES};

verus! {

/// Number of frames the CPU may record ahead of the GPU.
pub const FRAMES_IN_FLIGHT: usize = 2;

/// Where the orchestrator stands within one `draw`.
#[derive(Clone, Copy, Debug, PartialEq, Eq, Structural)]
pub enum Phase {
    /// Between frames.
    Idle,
    /// The swapchain is being rebuilt.
    Resizing,
    /// Attachments, render pass and per-image data are being rebuilt.
    Rebuilding,
    /// Waiting on the fence of the current frame-in-flight slot.
    WaitingFrame,
    /// Acquiring the next swapchain image.
    Acquiring,
    /// Waiting on the fence of an older frame that still uses the acquired image.
    WaitingImage,
    /// Recording and submitting the acquired image's command buffer.
    Recording,
    /// Presenting the acquired image.
    Presenting,
}

/// What a frame-in-flight slot is doing.
#[derive(Clone, Copy, Debug, PartialEq, Eq, Structural)]
pub enum SlotState {
    /// Free: its last submission, if any, has been waited on.
    Idle,
    /// The current slot, acquiring an image or waiting for the image to be released.
    Acquiring,
    /// The current slot, recording and submitting its image's command buffer.
    Recording,
    /// Submitted; its fence has not been waited on since.
    Submitted,
}

/// What the caller reports back after performing an action.
#[derive(Clone, Copy, Debug, PartialEq, Eq, Structural)]
pub enum FrameEvent {
    /// A new frame is requested.
    Draw,
    /// The window was resized; the swapchain is rebuilt at the start of the next frame.
    WindowResized,
    /// The swapchain was rebuilt with this many images and this surface format.
    SwapchainRebuilt { image_count: usize, format: SurfaceFormat },
    /// Everything that depends on the swapchain was rebuilt.
    Rebuilt,
    /// The awaited fence has signaled.
    FenceSignaled,
    /// The swapchain handed out this image.
    Acquired { image: usize },
    /// Acquisition failed because the surface changed.
    AcquireOutOfDate,
    /// The command buffer was submitted.
    Submitted,
    /// The image was presented; `suboptimal` tells whether the surface no longer matches.
    Presented { suboptimal: bool },
    /// Presentation failed because the surface changed.
    PresentOutOfDate,
}

/// What the caller must do next.
#[derive(Clone, Copy, Debug, PartialEq, Eq, Structural)]
pub enum FrameAction {
    /// Nothing to do.
    Nothing,
    /// Wait for the device to become idle, then rebuild the swapchain.
    RebuildSwapchain,
    /// Rebuild the attachments, the render pass only when asked, reset the descriptor
    /// allocator and rebuild the per-image data.
    RebuildTargets { recreate_renderpass: bool },
    /// Block on the fence of this frame-in-flight slot.
    WaitFence { slot: usize },
    /// Acquire an image, signaling this slot's image-available semaphore.
    Acquire { slot: usize },
    /// Reset the slot's fence, record the image's command buffer, write its per-object data
    /// and submit it, waiting on the slot's image-available semaphore and signaling its
    /// render-finished semaphore and fence.
    Submit { image: usize, slot: usize },
    /// Present the image, waiting on the slot's render-finished semaphore.
    Present { image: usize, slot: usize },
    /// The frame is complete.
    Done,
    /// The frame was abandoned; a resize is pending.
    Skip,
    /// The event does not fit the current phase; nothing changed.
    Rejected,
}

/// Mathematical state of the orchestrator.
pub struct FrameState {
    /// Size of the frame-in-flight ring.
    pub frames: nat,
    /// Current frame-in-flight slot.
    pub current: nat,
    pub should_resize: bool,
    pub phase: Phase,
    /// Image acquired in the running frame.
    pub image: nat,
    /// Slot whose fence is awaited while the phase is `WaitingImage`.
    pub waited: nat,
    /// Per slot: its fence may still be unsignaled (work submitted and not yet waited on).
    pub pending: Seq<bool>,
    /// Per slot: the image its last submission rendered to.
    pub submitted: Seq<Option<usize>>,
    /// Per swapchain image: the slot whose fence last claimed it.
    pub claims: Seq<Option<usize>>,
    pub format: SurfaceFormat,
}

/// Everything that follows the swapchain being rebuilt with `image_count` images: the device
/// is idle, so no fence is pending and no image is claimed.
pub open spec fn rebuilt_state(s: FrameState, image_count: nat, format: SurfaceFormat) -> FrameState {
    FrameState {
        phase: Phase::Rebuilding,
        pending: Seq::new(s.frames, |i: int| false),
        submitted: Seq::new(s.frames, |i: int| None::<usize>),
        claims: Seq::new(image_count, |i: int| None::<usize>),
        format: format,
        ..s
    }
}

/// `image` is claimed by a slot whose fence is still pending: the GPU may still be using it.
pub open spec fn claim_pending(s: FrameState, image: nat) -> bool {
    &&& s.claims[image as int] is Some
    &&& s.pending[s.claims[image as int]->Some_0 as int]
}

/// One transition of the orchestrator: the next state and the action to perform.
pub open spec fn step_spec(s: FrameState, ev: FrameEvent) -> (FrameState, FrameAction) {
    match ev {
        FrameEvent::WindowResized => (FrameState { should_resize: true, ..s }, FrameAction::Nothing),
        FrameEvent::Draw => {
            if s.phase != Phase::Idle {
                (s, FrameAction::Rejected)
            } else if s.should_resize {
                (
                    FrameState { phase: Phase::Resizing, should_resize: false, ..s },
                    FrameAction::RebuildSwapchain,
                )
            } else {
                (
                    FrameState { phase: Phase::WaitingFrame, ..s },
                    FrameAction::WaitFence { slot: s.current as usize },
                )
            }
        },
        FrameEvent::SwapchainRebuilt { image_count, format } => {
            if s.phase == Phase::Resizing && 1 <= image_count <= MAX_FRAMES {
                (
                    rebuilt_state(s, image_count as nat, format),
                    FrameAction::RebuildTargets { recreate_renderpass: format != s.format },
                )
            } else {
                (s, FrameAction::Rejected)
            }
        },
        FrameEvent::Rebuilt => {
            if s.phase == Phase::Rebuilding {
                (
                    FrameState { phase: Phase::WaitingFrame, ..s },
                    FrameAction::WaitFence { slot: s.current as usize },
                )
            } else {
                (s, FrameAction::Rejected)
            }
        },
        FrameEvent::FenceSignaled => {
            if s.phase == Phase::WaitingFrame {
                (
                    FrameState {
                        phase: Phase::Acquiring,
                        pending: s.pending.update(s.current as int, false),
                        ..s
                    },
                    FrameAction::Acquire { slot: s.current as usize },
                )
            } else if s.phase == Phase::WaitingImage {
                (
                    FrameState {
                        phase: Phase::Recording,
                        pending: s.pending.update(s.waited as int, false),
                        claims: s.claims.update(s.image as int, Some(s.current as usize)),
                        ..s
                    },
                    FrameAction::Submit { image: s.image as usize, slot: s.current as usize },
                )
            } else {
                (s, FrameAction::Rejected)
            }
        },
        FrameEvent::AcquireOutOfDate => {
            if s.phase == Phase::Acquiring {
                (FrameState { phase: Phase::Idle, should_resize: true, ..s }, FrameAction::Skip)
            } else {
                (s, FrameAction::Rejected)
            }
        },
        FrameEvent::Acquired { image } => {
            if s.phase != Phase::Acquiring || image >= s.claims.len() {
                (s, FrameAction::Rejected)
            } else if claim_pending(s, image as nat) {
                let t = s.claims[image as int]->Some_0;
                (
                    FrameState { phase: Phase::WaitingImage, image: image as nat, waited: t as nat, ..s },
                    FrameAction::WaitFence { slot: t },
                )
            } else {
                (
                    FrameState {
                        phase: Phase::Recording,
                        image: image as nat,
                        claims: s.claims.update(image as int, Some(s.current as usize)),
                        ..s
                    },
                    FrameAction::Submit { image: image, slot: s.current as usize },
                )
            }
        },
        FrameEvent::Submitted => {
            if s.phase == Phase::Recording {
                (
                    FrameState {
                        phase: Phase::Presenting,
                        pending: s.pending.update(s.current as int, true),
                        submitted: s.submitted.update(s.current as int, Some(s.image as usize)),
                        ..s
                    },
                    FrameAction::Present { image: s.image as usize, slot: s.current as usize },
                )
            } else {
                (s, FrameAction::Rejected)
            }
        },
        FrameEvent::Presented { suboptimal } => {
            if s.phase == Phase::Presenting {
                (
                    FrameState {
                        phase: Phase::Idle,
                        should_resize: s.should_resize || suboptimal,
                        current: (s.current + 1) % s.frames,
                        ..s
                    },
                    FrameAction::Done,
                )
            } else {
                (s, FrameAction::Rejected)
            }
        },
        FrameEvent::PresentOutOfDate => {
            if s.phase == Phase::Presenting {
                (FrameState { phase: Phase::Idle, should_resize: true, ..s }, FrameAction::Skip)
            } else {
                (s, FrameAction::Rejected)
            }
        },
    }
}

/// Invariant of the orchestrator: the ring and the image table are well formed, every
/// pending submission is recorded as the claim of its image, and each phase holds what the
/// protocol has established on the way to it.
pub open spec fn inv(s: FrameState) -> bool {
    &&& 1 <= s.frames <= usize::MAX
    &&& s.current < s.frames
    &&& s.pending.len() == s.frames
    &&& s.submitted.len() == s.frames
    &&& 1 <= s.claims.len() <= MAX_FRAMES
    &&& forall|i: int| 0 <= i < s.claims.len() && #[trigger] s.claims[i] is Some
        ==> s.claims[i]->Some_0 < s.frames
    &&& forall|t: int| 0 <= t < s.frames && #[trigger] s.pending[t] && s.submitted[t] is Some
        ==> s.submitted[t]->Some_0 < s.claims.len()
            && s.claims[s.submitted[t]->Some_0 as int] == Some(t as usize)
    &&& (s.phase == Phase::Acquiring ==> !s.pending[s.current as int])
    &&& (s.phase == Phase::WaitingImage ==> {
        &&& !s.pending[s.current as int]
        &&& s.image < s.claims.len()
        &&& s.waited < s.frames
        &&& s.claims[s.image as int] == Some(s.waited as usize)
    })
    &&& (s.phase == Phase::Recording ==> {
        &&& s.image < s.claims.len()
        &&& recording_is_safe(s)
        &&& s.claims[s.image as int] == Some(s.current as usize)
    })
    &&& (s.phase == Phase::Presenting ==> {
        &&& s.image < s.claims.len()
        &&& s.pending[s.current as int]
        &&& s.submitted[s.current as int] == Some(s.image as usize)
    })
}

/// The current slot's fence has signaled and no pending submission renders to the image
/// about to be recorded: neither its command buffer nor its per-object data is in use.
pub open spec fn recording_is_safe(s: FrameState) -> bool {
    &&& !s.pending[s.current as int]
    &&& forall|t: int| 0 <= t < s.frames && #[trigger] s.pending[t]
        ==> s.submitted[t] != Some(s.image as usize)
}

/// The state of slot `i`, as the orchestrator's state determines it.
pub open spec fn slot_state_spec(s: FrameState, i: nat) -> SlotState {
    if i == s.current && (s.phase == Phase::Acquiring || s.phase == Phase::WaitingImage) {
        SlotState::Acquiring
    } else if i == s.current && s.phase == Phase::Recording {
        SlotState::Recording
    } else if s.pending[i as int] {
        SlotState::Submitted
    } else {
        SlotState::Idle
    }
}

/// Drives the per-frame protocol: a ring of frame-in-flight slots, each with a fence and two
/// semaphores that the caller owns, and a table that records which slot last claimed each
/// swapchain image.
pub struct FrameSync {
    frames: usize,
    current: usize,
    should_resize: bool,
    phase: Phase,
    image: usize,
    waited: usize,
    pending: Vec<bool>,
    submitted: Vec<Option<usize>>,
    claims: Vec<Option<usize>>,
    format: SurfaceFormat,
}

fn all_false(n: usize) -> (r: Vec<bool>)
    ensures
        r@ == Seq::new(n as nat, |i: int| false),
{
    let mut r: Vec<bool> = Vec::new();
    let mut i: usize = 0;
    while i < n
        invariant
            i <= n,
            r@ == Seq::new(i as nat, |j: int| false),
        decreases n - i,
    {
        r.push(false);
        i = i + 1;
        assert(r@ =~= Seq::new(i as nat, |j: int| false));
    }
    r
}

fn all_none(n: usize) -> (r: Vec<Option<usize>>)
    ensures
        r@ == Seq::new(n as nat, |i: int| None::<usize>),
{
    let mut r: Vec<Option<usize>> = Vec::new();
    let mut i: usize = 0;
    while i < n
        invariant
            i <= n,
            r@ == Seq::new(i as nat, |j: int| None::<usize>),
        decreases n - i,
    {
        r.push(None);
        i = i + 1;
        assert(r@ =~= Seq::new(i as nat, |j: int| None::<usize>));
    }
    r
}

impl View for FrameSync {
    type V = FrameState;

    closed spec fn view(&self) -> FrameState {
        FrameState {
            frames: self.frames as nat,
            current: self.current as nat,
            should_resize: self.should_resize,
            phase: self.phase,
            image: self.image as nat,
            waited: self.waited as nat,
            pending: self.pending@,
            submitted: self.submitted@,
            claims: self.claims@,
            format: self.format,
        }
    }
}

impl FrameSync {
    /// A fresh orchestrator for a swapchain of `image_count` images: every fence starts
    /// signaled, no image is claimed, and the first frame uses slot zero.
    pub fn new(frames_in_flight: usize, image_count: usize, format: SurfaceFormat) -> (r: Self)
        requires
            1 <= frames_in_flight,
            1 <= image_count <= MAX_FRAMES,
        ensures
            r@.frames == frames_in_flight,
            r@.current == 0,
            !r@.should_resize,
            r@.phase == Phase::Idle,
            r@.pending == Seq::new(frames_in_flight as nat, |i: int| false),
            r@.submitted == Seq::new(frames_in_flight as nat, |i: int| None::<usize>),
            r@.claims == Seq::new(image_count as nat, |i: int| None::<usize>),
            r@.format == format,
            inv(r@),
    {
        FrameSync {
            frames: frames_in_flight,
            current: 0,
            should_resize: false,
            phase: Phase::Idle,
            image: 0,
            waited: 0,
            pending: all_false(frames_in_flight),
            submitted: all_none(frames_in_flight),
            claims: all_none(image_count),
            format,
        }
    }

    /// Records the window's resize request: the swapchain is rebuilt at the start of the
    /// next frame, never in the middle of one.
    pub fn on_resize(&mut self)
        requires
            inv(old(self)@),
        ensures
            final(self)@ == step_spec(old(self)@, FrameEvent::WindowResized).0,
            inv(final(self)@),
    {
        self.should_resize = true;
    }

    /// The current frame-in-flight slot.
    pub fn current_frame(&self) -> (r: usize)
        ensures
            r == self@.current,
    {
        self.current
    }

    /// Whether a resize is pending.
    pub fn should_resize(&self) -> (r: bool)
        ensures
            r == self@.should_resize,
    {
        self.should_resize
    }

    /// The phase within the running frame.
    pub fn phase(&self) -> (r: Phase)
        ensures
            r == self@.phase,
    {
        self.phase
    }

    /// Number of swapchain images the orchestrator tracks.
    pub fn image_count(&self) -> (r: usize)
        ensures
            r == self@.claims.len(),
    {
        self.claims.len()
    }

    /// The state of frame-in-flight slot `slot`.
    pub fn slot_state(&self, slot: usize) -> (r: SlotState)
        requires
            inv(self@),
            slot < self@.frames,
        ensures
            r == slot_state_spec(self@, slot as nat),
    {
        if slot == self.current && (self.phase == Phase::Acquiring || self.phase == Phase::WaitingImage) {
            SlotState::Acquiring
        } else if slot == self.current && self.phase == Phase::Recording {
            SlotState::Recording
        } else if self.pending[slot] {
            SlotState::Submitted
        } else {
            SlotState::Idle
        }
    }

    /// Advances the protocol by one event and returns the action the caller performs next.
    pub fn step(&mut self, ev: FrameEvent) -> (r: FrameAction)
        requires
            inv(old(self)@),
        ensures
            (final(self)@, r) == step_spec(old(self)@, ev),
            inv(final(self)@),
    {
        proof {
            lemma_step_keeps_invariant(self@, ev);
        }
        match ev {
            FrameEvent::WindowResized => {
                self.should_resize = true;
                FrameAction::Nothing
            },
            FrameEvent::Draw => {
                if self.phase != Phase::Idle {
                    FrameAction::Rejected
                } else if self.should_resize {
                    self.phase = Phase::Resizing;
                    self.should_resize = false;
                    FrameAction::RebuildSwapchain
                } else {
                    self.phase = Phase::WaitingFrame;
                    FrameAction::WaitFence { slot: self.current }
                }
            },
            FrameEvent::SwapchainRebuilt { image_count, format } => {
                if self.phase == Phase::Resizing && 1 <= image_count && image_count <= MAX_FRAMES {
                    let recreate = format != self.format;
                    self.phase = Phase::Rebuilding;
                    self.pending = all_false(self.frames);
                    self.submitted = all_none(self.frames);
                    self.claims = all_none(image_count);
                    self.format = format;
                    FrameAction::RebuildTargets { recreate_renderpass: recreate }
                } else {
                    FrameAction::Rejected
                }
            },
            FrameEvent::Rebuilt => {
                if self.phase == Phase::Rebuilding {
                    self.phase = Phase::WaitingFrame;
                    FrameAction::WaitFence { slot: self.current }
                } else {
                    FrameAction::Rejected
                }
            },
            FrameEvent::FenceSignaled => {
                if self.phase == Phase::WaitingFrame {
                    self.phase = Phase::Acquiring;
                    self.pending.set(self.current, false);
                    FrameAction::Acquire { slot: self.current }
                } else if self.phase == Phase::WaitingImage {
                    self.phase = Phase::Recording;
                    self.pending.set(self.waited, false);
                    self.claims.set(self.image, Some(self.current));
                    FrameAction::Submit { image: self.image, slot: self.current }
                } else {
                    FrameAction::Rejected
                }
            },
            FrameEvent::AcquireOutOfDate => {
                if self.phase == Phase::Acquiring {
                    self.phase = Phase::Idle;
                    self.should_resize = true;
                    FrameAction::Skip
                } else {
                    FrameAction::Rejected
                }
            },
            FrameEvent::Acquired { image } => {
                if self.phase != Phase::Acquiring || image >= self.claims.len() {
                    FrameAction::Rejected
                } else {
                    match self.claims[image] {
                        Some(t) if self.pending[t] => {
                            self.phase = Phase::WaitingImage;
                            self.image = image;
                            self.waited = t;
                            FrameAction::WaitFence { slot: t }
                        },
                        _ => {
                            self.phase = Phase::Recording;
                            self.image = image;
                            self.claims.set(image, Some(self.current));
                            FrameAction::Submit { image, slot: self.current }
                        },
                    }
                }
            },
            FrameEvent::Submitted => {
                if self.phase == Phase::Recording {
                    self.phase = Phase::Presenting;
                    self.pending.set(self.current, true);
                    self.submitted.set(self.current, Some(self.image));
                    FrameAction::Present { image: self.image, slot: self.current }
                } else {
                    FrameAction::Rejected
                }
            },
            FrameEvent::Presented { suboptimal } => {
                if self.phase == Phase::Presenting {
                    self.phase = Phase::Idle;
                    self.should_resize = self.should_resize || suboptimal;
                    self.current = (self.current + 1) % self.frames;
                    FrameAction::Done
                } else {
                    FrameAction::Rejected
                }
            },
            FrameEvent::PresentOutOfDate => {
                if self.phase == Phase::Presenting {
                    self.phase = Phase::Idle;
                    self.should_resize = true;
                    FrameAction::Skip
                } else {
                    FrameAction::Rejected
                }
            },
        }
    }
}

/// Every transition keeps the invariant.
pub proof fn lemma_step_keeps_invariant(s: FrameState, ev: FrameEvent)
    requires
        inv(s),
    ensures
        inv(step_spec(s, ev).0),
{
    let n = step_spec(s, ev).0;
    match ev {
        FrameEvent::FenceSignaled => {
            if s.phase == Phase::WaitingImage {
                assert forall|t: int| 0 <= t < n.frames && #[trigger] n.pending[t]
                    implies n.submitted[t] != Some(n.image as usize) by {
                    if n.submitted[t] == Some(n.image as usize) {
                        assert(s.pending[t]);
                        assert(s.claims[s.image as int] == Some(t as usize));
                    }
                }
                assert forall|t: int| 0 <= t < n.frames && #[trigger] n.pending[t] && n.submitted[t] is Some
                    implies n.submitted[t]->Some_0 < n.claims.len()
                        && n.claims[n.submitted[t]->Some_0 as int] == Some(t as usize) by {
                    assert(s.pending[t]);
                }
            }
        },
        FrameEvent::Acquired { image } => {
            if s.phase == Phase::Acquiring && image < s.claims.len() && !claim_pending(s, image as nat) {
                assert forall|t: int| 0 <= t < n.frames && #[trigger] n.pending[t]
                    implies n.submitted[t] != Some(n.image as usize) by {
                    if n.submitted[t] == Some(n.image as usize) {
                        assert(s.claims[image as int] == Some(t as usize));
                    }
                }
                assert forall|t: int| 0 <= t < n.frames && #[trigger] n.pending[t] && n.submitted[t] is Some
                    implies n.submitted[t]->Some_0 < n.claims.len()
                        && n.claims[n.submitted[t]->Some_0 as int] == Some(t as usize) by {
                    if n.submitted[t] == Some(image) {
                        assert(s.claims[image as int] == Some(t as usize));
                    }
                }
            }
        },
        FrameEvent::Submitted => {
            if s.phase == Phase::Recording {
                assert forall|t: int| 0 <= t < n.frames && #[trigger] n.pending[t] && n.submitted[t] is Some
                    implies n.submitted[t]->Some_0 < n.claims.len()
                        && n.claims[n.submitted[t]->Some_0 as int] == Some(t as usize) by {
                    if t != s.current {
                        assert(s.pending[t]);
                    }
                }
            }
        },
        _ => {},
    }
}

/// Number of slots whose fence is pending.
pub open spec fn count_pending(p: Seq<bool>) -> nat
    decreases p.len(),
{
    if p.len() == 0 {
        0
    } else {
        count_pending(p.drop_last()) + if p.last() { 1nat } else { 0nat }
    }
}

/// Frames the GPU may still be working on, plus the one being recorded.
pub open spec fn frames_outstanding(s: FrameState) -> nat {
    count_pending(s.pending) + if s.phase == Phase::Recording { 1nat } else { 0nat }
}

proof fn lemma_count_pending_bound(p: Seq<bool>, i: int)
    requires
        0 <= i < p.len(),
    ensures
        count_pending(p) <= p.len(),
        !p[i] ==> count_pending(p) < p.len(),
    decreases p.len(),
{
    let q = p.drop_last();
    if i < p.len() - 1 {
        assert(q[i] == p[i]);
        lemma_count_pending_bound(q, i);
    } else if p.len() > 1 {
        lemma_count_pending_bound(q, 0);
    }
}

/// However the caller drives it, at most `frames` frames are recorded or in flight at once:
/// a frame is recorded only after its slot's fence has signaled.
pub proof fn lemma_frames_outstanding_bounded(s: FrameState)
    requires
        inv(s),
    ensures
        frames_outstanding(s) <= s.frames,
{
    lemma_count_pending_bound(s.pending, s.current as int);
}

/// A command buffer is submitted only for the current slot, once that slot's fence has
/// signaled, and only when no pending submission renders to the same image.
pub proof fn lemma_submit_is_safe(s: FrameState, ev: FrameEvent)
    requires
        inv(s),
        step_spec(s, ev).1 is Submit,
    ensures
        step_spec(s, ev).1->Submit_slot == step_spec(s, ev).0.current,
        step_spec(s, ev).1->Submit_image == step_spec(s, ev).0.image,
        recording_is_safe(step_spec(s, ev).0),
{
    lemma_step_keeps_invariant(s, ev);
}

/// An acquired image still claimed by a pending slot makes the orchestrator wait on exactly
/// that slot's fence, and nothing is recorded for the image until that fence has signaled.
pub proof fn lemma_reused_image_waits(s: FrameState, image: usize, ev: FrameEvent)
    requires
        inv(s),
        s.phase == Phase::Acquiring,
        image < s.claims.len(),
        claim_pending(s, image as nat),
    ensures
        step_spec(s, FrameEvent::Acquired { image }).1
            == (FrameAction::WaitFence { slot: s.claims[image as int]->Some_0 }),
        step_spec(step_spec(s, FrameEvent::Acquired { image }).0, ev).1 is Submit ==> {
            &&& ev == FrameEvent::FenceSignaled
            &&& !step_spec(step_spec(s, FrameEvent::Acquired { image }).0, ev).0.pending[
                s.claims[image as int]->Some_0 as int]
        },
{
}

/// Rebuilding the swapchain asks for a new render pass exactly when the surface format
/// changed; with the same format the render pass and pipelines are kept.
pub proof fn lemma_resize_keeps_renderpass(s: FrameState, image_count: usize, format: SurfaceFormat)
    requires
        inv(s),
        s.phase == Phase::Resizing,
        1 <= image_count <= MAX_FRAMES,
    ensures
        step_spec(s, FrameEvent::SwapchainRebuilt { image_count, format }).1
            == (FrameAction::RebuildTargets { recreate_renderpass: format != s.format }),
        format == s.format ==> step_spec(s, FrameEvent::SwapchainRebuilt { image_count, format }).1
            == (FrameAction::RebuildTargets { recreate_renderpass: false }),
{
}

/// An out-of-date image ends the frame early without advancing the ring; the next draw
/// starts with one resize, after which the frame proceeds normally with no resize pending.
pub proof fn lemma_out_of_date_resizes_once(s: FrameState, image_count: usize, format: SurfaceFormat)
    requires
        inv(s),
        s.phase == Phase::Acquiring,
        1 <= image_count <= MAX_FRAMES,
    ensures
        ({
            let s1 = step_spec(s, FrameEvent::AcquireOutOfDate);
            let s2 = step_spec(s1.0, FrameEvent::Draw);
            let s3 = step_spec(s2.0, FrameEvent::SwapchainRebuilt { image_count, format });
            let s4 = step_spec(s3.0, FrameEvent::Rebuilt);
            &&& s1.1 == FrameAction::Skip
            &&& s1.0.phase == Phase::Idle
            &&& s1.0.current == s.current
            &&& s2.1 == FrameAction::RebuildSwapchain
            &&& s3.1 is RebuildTargets
            &&& s4.1 == (FrameAction::WaitFence { slot: s.current as usize })
            &&& !s4.0.should_resize
            &&& s4.0.claims.len() == image_count
        }),
{
}

/// Only the current slot is ever recording, and only once its fence has signaled: no slot's
/// command buffer is re-recorded while the GPU may still read it.
pub proof fn lemma_recording_slot_is_free(s: FrameState, i: nat)
    requires
        inv(s),
        i < s.frames,
        slot_state_spec(s, i) == SlotState::Recording,
    ensures
        i == s.current,
        !s.pending[i as int],
        forall|j: nat| j < s.frames && j != i ==> slot_state_spec(s, j) != SlotState::Recording,
{
}

} // verus!
