//! Per-frame synchronization: the round-robin frame slots, their fences and
//! semaphores, and the per-image fence table that keeps a submission from
//! targeting a swapchain image the presentation engine may still be reading.
//! The driver calls — fence waits, submits, presents — happen in the
//! unverified shell; this module decides what to wait on and records what was
//! submitted, and its well-formedness invariant rules the hazard out.

use vstd::prelude::*;

use crate::GraphicsError;

verus! {

/// Number of logical frames the CPU may run ahead of the GPU.
pub const MAX_FRAMES_IN_FLIGHT: u32 = 2;

/// What an acquire or present call reported, reduced to what the pacing
/// policy needs.
#[derive(Clone, Copy, Debug, PartialEq, Eq, Structural)]
pub enum SurfaceEvent {
    /// The call succeeded.
    Success,
    /// The call succeeded but the surface no longer matches the swapchain.
    Suboptimal,
    /// The swapchain can no longer present to the surface.
    OutOfDate,
    /// A fence wait exhausted its timeout.
    TimedOut,
    /// The device was lost.
    Lost,
}

/// What the frame loop must do next.
#[derive(Clone, Copy, Debug, PartialEq, Eq, Structural)]
pub enum FrameAction {
    /// Carry on with the current frame.
    Proceed,
    /// Rebuild the swapchain, then retry the frame once.
    RecreateSwapchain,
    /// Stop submitting and surface the error.
    Fail(GraphicsError),
}

/// The synchronization state of every frame slot and swapchain image.
///
/// `in_flight_fences[s]` is the fence handle of slot `s`;
/// `submitted_images[s]` is the image slot `s` has submitted to and not yet
/// waited for, and `images_in_flight[i]` is the slot whose fence last took
/// ownership of image `i`.
#[derive(Clone, Debug)]
pub struct VulkanSyncObjects {
    pub current_frame: usize,
    pub image_available_semaphores: Vec<u64>,
    pub render_finished_semaphores: Vec<u64>,
    pub in_flight_fences: Vec<u64>,
    pub images_in_flight: Vec<Option<usize>>,
    pub submitted_images: Vec<Option<usize>>,
}

impl VulkanSyncObjects {
    /// Number of frame slots.
    pub open spec fn n_slots(self) -> nat {
        self.in_flight_fences@.len()
    }

    /// Number of swapchain images tracked.
    pub open spec fn n_images(self) -> nat {
        self.images_in_flight@.len()
    }

    /// The central well-formedness condition: the per-slot vectors pair off,
    /// the round-robin counter is in range, and every outstanding submission
    /// is registered in the per-image table under its own slot. The last
    /// clause is what makes two outstanding submissions to one image
    /// impossible.
    pub open spec fn wf(self) -> bool {
        &&& self.n_slots() > 0
        &&& self.image_available_semaphores@.len() == self.n_slots()
        &&& self.render_finished_semaphores@.len() == self.n_slots()
        &&& self.submitted_images@.len() == self.n_slots()
        &&& self.current_frame < self.n_slots()
        &&& forall|s: int|
            0 <= s < self.n_slots() ==> (#[trigger] self.submitted_images@[s] matches Some(img)
                ==> 0 <= img < self.n_images() && (self.images_in_flight@[img as int] matches Some(
                sl,
            ) && sl == s))
        &&& forall|i: int|
            0 <= i < self.n_images() ==> (#[trigger] self.images_in_flight@[i] matches Some(sl)
                ==> sl < self.n_slots())
    }

    /// No outstanding submission targets image `i`.
    pub open spec fn image_free(self, i: int) -> bool {
        forall|s: int|
            0 <= s < self.n_slots() ==> !(#[trigger] self.submitted_images@[s] matches Some(img)
                && img == i)
    }

    /// Builds the table for freshly created synchronization objects: slot
    /// zero is current, no image is owned, nothing is outstanding.
    pub fn initialize_sync_objects(
        image_available_semaphores: Vec<u64>,
        render_finished_semaphores: Vec<u64>,
        in_flight_fences: Vec<u64>,
        swapchain_images_size: usize,
    ) -> (r: Self)
        requires
            in_flight_fences@.len() > 0,
            image_available_semaphores@.len() == in_flight_fences@.len(),
            render_finished_semaphores@.len() == in_flight_fences@.len(),
        ensures
            r.wf(),
            r.current_frame == 0,
            r.n_slots() == in_flight_fences@.len(),
            r.n_images() == swapchain_images_size,
            r.in_flight_fences@ == in_flight_fences@,
            r.image_available_semaphores@ == image_available_semaphores@,
            r.render_finished_semaphores@ == render_finished_semaphores@,
            forall|i: int| 0 <= i < r.n_images() ==> r.images_in_flight@[i] is None,
            forall|s: int| 0 <= s < r.n_slots() ==> r.submitted_images@[s] is None,
    {
        let n_slots = in_flight_fences.len();
        let mut images_in_flight: Vec<Option<usize>> = Vec::new();
        let mut i: usize = 0;
        while i < swapchain_images_size
            invariant
                images_in_flight@.len() == i,
                i <= swapchain_images_size,
                forall|k: int| 0 <= k < i ==> images_in_flight@[k] is None,
            decreases swapchain_images_size - i,
        {
            images_in_flight.push(None);
            i = i + 1;
        }
        let mut submitted_images: Vec<Option<usize>> = Vec::new();
        let mut s: usize = 0;
        while s < n_slots
            invariant
                submitted_images@.len() == s,
                s <= n_slots,
                forall|k: int| 0 <= k < s ==> submitted_images@[k] is None,
            decreases n_slots - s,
        {
            submitted_images.push(None);
            s = s + 1;
        }
        VulkanSyncObjects {
            current_frame: 0,
            image_available_semaphores,
            render_finished_semaphores,
            in_flight_fences,
            images_in_flight,
            submitted_images,
        }
    }

    /// The fence the frame loop must wait on before reusing the current
    /// slot's resources.
    pub fn current_slot_fence(&self) -> (r: u64)
        requires
            self.wf(),
        ensures
            r == self.in_flight_fences@[self.current_frame as int],
    {
        self.in_flight_fences[self.current_frame]
    }

    /// The semaphore an acquire on the current slot signals.
    pub fn current_image_available_semaphore(&self) -> (r: u64)
        requires
            self.wf(),
        ensures
            r == self.image_available_semaphores@[self.current_frame as int],
    {
        self.image_available_semaphores[self.current_frame]
    }

    /// The semaphore presentation waits on for the current slot.
    pub fn current_render_finished_semaphore(&self) -> (r: u64)
        requires
            self.wf(),
        ensures
            r == self.render_finished_semaphores@[self.current_frame as int],
    {
        self.render_finished_semaphores[self.current_frame]
    }

    /// Records that the wait on the current slot's fence returned: whatever
    /// that slot had submitted is complete, so the slot is free again.
    pub fn note_slot_fence_waited(&mut self)
        requires
            old(self).wf(),
        ensures
            final(self).wf(),
            *final(self) == (VulkanSyncObjects {
                submitted_images: final(self).submitted_images,
                ..*old(self)
            }),
            final(self).submitted_images@ == old(self).submitted_images@.update(
                old(self).current_frame as int,
                None::<usize>,
            ),
    {
        let cur = self.current_frame;
        self.submitted_images.set(cur, None);
    }

    /// The fence recorded against `image_index` that is still outstanding,
    /// if there is one: the frame loop must wait on it before submitting to
    /// that image.
    pub fn hazard_fence(&self, image_index: usize) -> (r: Option<u64>)
        requires
            self.wf(),
            image_index < self.n_images(),
        ensures
            r is None <==> (self.images_in_flight@[image_index as int] matches Some(s)
                ==> self.submitted_images@[s as int] is None),
            r matches Some(f) ==> (self.images_in_flight@[image_index as int] matches Some(s)
                && self.submitted_images@[s as int] is Some && f == self.in_flight_fences@[
            s as int]),
    {
        match self.images_in_flight[image_index] {
            Some(s) => {
                if self.submitted_images[s].is_some() {
                    Some(self.in_flight_fences[s])
                } else {
                    None
                }
            },
            None => None,
        }
    }

    /// Records that the wait on `image_index`'s recorded fence returned: the
    /// owning slot's submission is complete.
    pub fn note_hazard_cleared(&mut self, image_index: usize)
        requires
            old(self).wf(),
            image_index < old(self).n_images(),
        ensures
            final(self).wf(),
            final(self).image_free(image_index as int),
            final(self).current_frame == old(self).current_frame,
            final(self).in_flight_fences@ == old(self).in_flight_fences@,
            final(self).image_available_semaphores@ == old(self).image_available_semaphores@,
            final(self).render_finished_semaphores@ == old(self).render_finished_semaphores@,
            final(self).images_in_flight@ == old(self).images_in_flight@,
            final(self).n_slots() == old(self).n_slots(),
            old(self).images_in_flight@[image_index as int] matches Some(sl)
                ==> final(self).submitted_images@ == old(self).submitted_images@.update(
                sl as int,
                None::<usize>,
            ),
            old(self).images_in_flight@[image_index as int] is None
                ==> final(self).submitted_images@ == old(self).submitted_images@,
    {
        let ghost pre = *self;
        match self.images_in_flight[image_index] {
            Some(s) => {
                self.submitted_images.set(s, None);
                proof {
                    assert forall|t: int|
                        0 <= t < self.n_slots() implies !(#[trigger] self.submitted_images@[t]
                        matches Some(img) && img == image_index) by {
                        if self.submitted_images@[t] == Some(image_index) {
                            assert(t != s as int);
                            assert(pre.submitted_images@[t] == Some(image_index));
                            assert(pre.images_in_flight@[image_index as int] matches Some(sl)
                                && sl == t);
                            assert(pre.images_in_flight@[image_index as int] == Some(s));
                        }
                    }
                }
            },
            None => {
                proof {
                    assert forall|t: int|
                        0 <= t < self.n_slots() implies !(#[trigger] self.submitted_images@[t]
                        matches Some(img) && img == image_index) by {
                        if self.submitted_images@[t] == Some(image_index) {
                            assert(pre.images_in_flight@[image_index as int] matches Some(sl)
                                && sl == t);
                        }
                    }
                }
            },
        }
    }

    /// Records ownership of the acquired image by the current slot, just
    /// before its fence is reset and the work is submitted. The caller must
    /// have freed the slot and cleared the image's recorded fence; in return,
    /// no other slot holds an outstanding submission to this image.
    pub fn record_submission(&mut self, image_index: usize)
        requires
            old(self).wf(),
            image_index < old(self).n_images(),
            old(self).submitted_images@[old(self).current_frame as int] is None,
            old(self).image_free(image_index as int),
        ensures
            final(self).wf(),
            final(self).current_frame == old(self).current_frame,
            final(self).in_flight_fences@ == old(self).in_flight_fences@,
            final(self).image_available_semaphores@ == old(self).image_available_semaphores@,
            final(self).render_finished_semaphores@ == old(self).render_finished_semaphores@,
            final(self).images_in_flight@ == old(self).images_in_flight@.update(
                image_index as int,
                Some(old(self).current_frame),
            ),
            final(self).submitted_images@ == old(self).submitted_images@.update(
                old(self).current_frame as int,
                Some(image_index),
            ),
    {
        let cur = self.current_frame;
        self.images_in_flight.set(image_index, Some(cur));
        self.submitted_images.set(cur, Some(image_index));
    }

    /// Advances the round-robin counter to the next frame slot.
    pub fn advance_frame(&mut self)
        requires
            old(self).wf(),
        ensures
            final(self).wf(),
            *final(self) == (VulkanSyncObjects {
                current_frame: final(self).current_frame,
                ..*old(self)
            }),
            final(self).current_frame == (old(self).current_frame + 1) % (
            old(self).n_slots() as int),
    {
        let n = self.in_flight_fences.len();
        self.current_frame = (self.current_frame + 1) % n;
    }
}

impl Default for VulkanSyncObjects {
    /// An empty table: no slots, no images, counter at zero.
    fn default() -> (r: Self)
        ensures
            r.current_frame == 0,
            r.n_slots() == 0,
            r.n_images() == 0,
            r.submitted_images@.len() == 0,
    {
        VulkanSyncObjects {
            current_frame: 0,
            image_available_semaphores: Vec::new(),
            render_finished_semaphores: Vec::new(),
            in_flight_fences: Vec::new(),
            images_in_flight: Vec::new(),
            submitted_images: Vec::new(),
        }
    }
}

/// The hazard invariant: in a well-formed table, two distinct slots never
/// hold outstanding submissions to the same swapchain image, however slot
/// and image counts differ.
pub proof fn lemma_no_image_hazard(m: VulkanSyncObjects, s1: usize, s2: usize)
    requires
        m.wf(),
        s1 < m.n_slots(),
        s2 < m.n_slots(),
        s1 != s2,
        m.submitted_images@[s1 as int] is Some,
    ensures
        m.submitted_images@[s1 as int] != m.submitted_images@[s2 as int],
{
    match m.submitted_images@[s1 as int] {
        Some(img) => {
            assert(m.images_in_flight@[img as int] == Some(s1));
            if m.submitted_images@[s2 as int] == Some(img) {
                assert(m.images_in_flight@[img as int] == Some(s2));
            }
        },
        None => {},
    }
}

/// Decides what the frame loop does with an acquire or present outcome: a
/// stale surface triggers one swapchain recreation and a single retry,
/// a timeout or loss is fatal, success proceeds.
pub fn frame_policy(outcome: SurfaceEvent, already_retried: bool) -> (r: FrameAction)
    ensures
        outcome == SurfaceEvent::Success ==> r == FrameAction::Proceed,
        (outcome == SurfaceEvent::OutOfDate || outcome == SurfaceEvent::Suboptimal)
            && !already_retried ==> r == FrameAction::RecreateSwapchain,
        (outcome == SurfaceEvent::OutOfDate || outcome == SurfaceEvent::Suboptimal)
            && already_retried ==> r == FrameAction::Fail(GraphicsError::SurfaceOutOfDate),
        outcome == SurfaceEvent::TimedOut ==> r == FrameAction::Fail(
            GraphicsError::SyncWaitTimeout,
        ),
        outcome == SurfaceEvent::Lost ==> r == FrameAction::Fail(GraphicsError::DeviceLost),
{
    match outcome {
        SurfaceEvent::Success => FrameAction::Proceed,
        SurfaceEvent::Suboptimal | SurfaceEvent::OutOfDate => {
            if !already_retried {
                FrameAction::RecreateSwapchain
            } else {
                FrameAction::Fail(GraphicsError::SurfaceOutOfDate)
            }
        },
        SurfaceEvent::TimedOut => FrameAction::Fail(GraphicsError::SyncWaitTimeout),
        SurfaceEvent::Lost => FrameAction::Fail(GraphicsError::DeviceLost),
    }
}

} // verus!
