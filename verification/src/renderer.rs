//! The stereo renderer: both eye targets, the fixed pipeline configuration,
//! and the frame-pacing state that chains GPU work across frames.
//!
//! Exactly one "previous frame completion" handle exists at a time. Each
//! frame consumes it and replaces it before returning, on every path: a
//! successful submission leaves the new fence, a transient "out of date"
//! submission and a fatal one both leave a fresh no-op sync point, and only
//! the fatal one terminates the loop.

use vstd::prelude::*;

use crate::eye::Eye;
use crate::eye::EyeCreationError;
use crate::eye::EyeResources;
use crate::eye::eye_creation_error;
use crate::eye::eye_creation_ok;
use crate::fence::WaitOutcome;
use crate::fence::poll_step_result;
use crate::fence::poll_step_state;
use crate::model::polled_from;
use crate::openvr_vulkan::QueueInfo;
use crate::scene::SceneTable;

verus! {

/// One draw call of a frame plan: which scene entry it draws, and the
/// native handles the recorded command needs.
#[derive(Clone, Copy, PartialEq, Eq, Structural, Debug)]
pub struct DrawCall {
    pub entry: usize,
    pub vertices: u64,
    pub indices: Option<u64>,
    pub set: u64,
}

/// One eye's render pass: begun against that eye's framebuffer, the draw
/// calls for every ready asset issued in entry order, then ended. A pass
/// with no ready assets is still begun and ended.
pub struct EyePass {
    pub frame_buffer: u64,
    pub draws: Vec<DrawCall>,
}

/// One frame's recorded commands: always both eye passes, left then right.
pub struct FramePlan {
    pub left: EyePass,
    pub right: EyePass,
}

/// Whether the draw list `draws` is exactly one draw call, in ascending
/// entry order, for each entry of `entries` whose asset polls ready with
/// the matching outcome of `polls`, carrying that asset's handles.
pub open spec fn draws_ready_entries<T>(
    draws: Seq<DrawCall>,
    entries: Seq<(crate::model::Model, T)>,
    polls: Seq<WaitOutcome>,
) -> bool {
    &&& forall|k: int|
        0 <= k < draws.len() ==> {
            let e = #[trigger] draws[k].entry;
            &&& e < entries.len()
            &&& poll_step_result(entries[e as int].0.fence.state(), polls[e as int])
            &&& draws[k].vertices == entries[e as int].0.vertices
            &&& draws[k].indices == entries[e as int].0.indices
            &&& draws[k].set == entries[e as int].0.set
        }
    &&& forall|i: int|
        0 <= i < entries.len() && poll_step_result(
            entries[i].0.fence.state(),
            polls[i],
        ) ==> exists|k: int| 0 <= k < draws.len() && #[trigger] draws[k].entry == i
    &&& forall|k1: int, k2: int|
        #![trigger draws[k1].entry, draws[k2].entry]
        0 <= k1 < k2 < draws.len() ==> draws[k1].entry < draws[k2].entry
}

/// Like [`draws_ready_entries`], for the second (right-eye) poll round:
/// ready means the asset's fence, already stepped once by the first round's
/// outcome, polls ready with the second round's outcome.
pub open spec fn draws_ready_entries_after<T>(
    draws: Seq<DrawCall>,
    entries: Seq<(crate::model::Model, T)>,
    first: Seq<WaitOutcome>,
    second: Seq<WaitOutcome>,
) -> bool {
    &&& forall|k: int|
        0 <= k < draws.len() ==> {
            let e = #[trigger] draws[k].entry;
            &&& e < entries.len()
            &&& poll_step_result(
                poll_step_state(entries[e as int].0.fence.state(), first[e as int]),
                second[e as int],
            )
            &&& draws[k].vertices == entries[e as int].0.vertices
            &&& draws[k].indices == entries[e as int].0.indices
            &&& draws[k].set == entries[e as int].0.set
        }
    &&& forall|i: int|
        0 <= i < entries.len() && poll_step_result(
            poll_step_state(entries[i].0.fence.state(), first[i]),
            second[i],
        ) ==> exists|k: int| 0 <= k < draws.len() && #[trigger] draws[k].entry == i
    &&& forall|k1: int, k2: int|
        #![trigger draws[k1].entry, draws[k2].entry]
        0 <= k1 < k2 < draws.len() ==> draws[k1].entry < draws[k2].entry
}

/// Records one eye's render pass: polls every entry's asset once and emits
/// one draw call per ready asset, in entry order.
fn record_eye_pass<T>(
    scene: &mut SceneTable<T>,
    polls: &Vec<WaitOutcome>,
    frame_buffer: u64,
) -> (p: EyePass)
    requires
        old(scene).wf(),
        polls@.len() == old(scene).entries().len(),
    ensures
        final(scene).wf(),
        final(scene).device_map() == old(scene).device_map(),
        final(scene).entries().len() == old(scene).entries().len(),
        forall|i: int|
            0 <= i < old(scene).entries().len() ==> polled_from(
                old(scene).entries()[i].0,
                #[trigger] final(scene).entries()[i].0,
                polls@[i],
            ) && final(scene).entries()[i].1 == old(scene).entries()[i].1,
        p.frame_buffer == frame_buffer,
        draws_ready_entries(p.draws@, old(scene).entries(), polls@),
{
    let n = scene.len();
    let mut draws: Vec<DrawCall> = Vec::new();
    let mut i: usize = 0;
    while i < n
        invariant
            n == old(scene).entries().len(),
            polls@.len() == n,
            i <= n,
            scene.wf(),
            scene.device_map() == old(scene).device_map(),
            scene.entries().len() == n,
            forall|j: int|
                0 <= j < i ==> polled_from(
                    old(scene).entries()[j].0,
                    #[trigger] scene.entries()[j].0,
                    polls@[j],
                ) && scene.entries()[j].1 == old(scene).entries()[j].1,
            forall|j: int| i <= j < n ==> scene.entries()[j] == old(scene).entries()[j],
            forall|k: int|
                0 <= k < draws@.len() ==> {
                    let e = #[trigger] draws@[k].entry;
                    &&& e < i
                    &&& poll_step_result(
                        old(scene).entries()[e as int].0.fence.state(),
                        polls@[e as int],
                    )
                    &&& draws@[k].vertices == old(scene).entries()[e as int].0.vertices
                    &&& draws@[k].indices == old(scene).entries()[e as int].0.indices
                    &&& draws@[k].set == old(scene).entries()[e as int].0.set
                },
            forall|j: int|
                0 <= j < i && poll_step_result(
                    old(scene).entries()[j].0.fence.state(),
                    polls@[j],
                ) ==> exists|k: int| 0 <= k < draws@.len() && #[trigger] draws@[k].entry == j,
            forall|k1: int, k2: int|
                #![trigger draws@[k1].entry, draws@[k2].entry]
                0 <= k1 < k2 < draws@.len() ==> draws@[k1].entry < draws@[k2].entry,
        decreases n - i,
    {
        let outcome = polls[i];
        let ready = scene.poll_entry(i, outcome);
        let ghost draws0 = draws@;
        if ready {
            let m = scene.model(i);
            let vertices = m.vertices;
            let indices = m.indices;
            let set = m.set;
            draws.push(DrawCall { entry: i, vertices, indices, set });
        }
        proof {
            assert forall|j: int|
                0 <= j <= i as int && poll_step_result(
                    old(scene).entries()[j].0.fence.state(),
                    polls@[j],
                ) implies exists|k: int|
                0 <= k < draws@.len() && #[trigger] draws@[k].entry == j by {
                if j == i as int {
                    assert(draws@[draws@.len() - 1].entry == i);
                } else {
                    let k1 = choose|k: int| 0 <= k < draws0.len() && #[trigger] draws0[k].entry
                        == j;
                    assert(draws@[k1].entry == j);
                }
            }
        }
        i = i + 1;
    }
    proof {
        assert(i == n);
        assert forall|i2: int| 0 <= i2 < old(scene).entries().len() implies polled_from(
            old(scene).entries()[i2].0,
            #[trigger] scene.entries()[i2].0,
            polls@[i2],
        ) && scene.entries()[i2].1 == old(scene).entries()[i2].1 by {
            assert(0 <= i2 < i as int);
        }
    }
    EyePass { frame_buffer, draws }
}

impl<T> Renderer<T> {
    /// Records one frame: begins the left eye's pass against its
    /// framebuffer, issues one draw call per asset that polls ready, ends
    /// the pass, and repeats for the right eye with its own poll round —
    /// an asset may become ready between the eyes. Assets not yet ready
    /// are skipped silently for this frame; a frame with none ready still
    /// carries both passes, each begun and ended with nothing drawn.
    pub fn record_frame(
        &self,
        scene: &mut SceneTable<T>,
        left_polls: &Vec<WaitOutcome>,
        right_polls: &Vec<WaitOutcome>,
    ) -> (plan: FramePlan)
        requires
            old(scene).wf(),
            left_polls@.len() == old(scene).entries().len(),
            right_polls@.len() == old(scene).entries().len(),
        ensures
            final(scene).wf(),
            final(scene).device_map() == old(scene).device_map(),
            final(scene).entries().len() == old(scene).entries().len(),
            forall|i: int|
                0 <= i < old(scene).entries().len() ==> {
                    let after_left = poll_step_state(
                        old(scene).entries()[i].0.fence.state(),
                        left_polls@[i],
                    );
                    &&& (#[trigger] final(scene).entries()[i]).1 == old(scene).entries()[i].1
                    &&& final(scene).entries()[i].0.vertices == old(scene).entries()[i].0.vertices
                    &&& final(scene).entries()[i].0.indices == old(scene).entries()[i].0.indices
                    &&& final(scene).entries()[i].0.image == old(scene).entries()[i].0.image
                    &&& final(scene).entries()[i].0.set == old(scene).entries()[i].0.set
                    &&& final(scene).entries()[i].0.fence.handle == old(
                        scene,
                    ).entries()[i].0.fence.handle
                    &&& final(scene).entries()[i].0.fence.state() == poll_step_state(
                        after_left,
                        right_polls@[i],
                    )
                },
            plan.left.frame_buffer == self.eyes.0.frame_buffer,
            plan.right.frame_buffer == self.eyes.1.frame_buffer,
            draws_ready_entries(plan.left.draws@, old(scene).entries(), left_polls@),
            draws_ready_entries_after(
                plan.right.draws@,
                old(scene).entries(),
                left_polls@,
                right_polls@,
            ),
            (forall|i: int|
                0 <= i < old(scene).entries().len() ==> !poll_step_result(
                    old(scene).entries()[i].0.fence.state(),
                    left_polls@[i],
                )) ==> plan.left.draws@.len() == 0,
    {
        let left = record_eye_pass(scene, left_polls, self.eyes.0.frame_buffer);
        let ghost mid = scene.entries();
        let right = record_eye_pass(scene, right_polls, self.eyes.1.frame_buffer);
        proof {
            if forall|i: int|
                0 <= i < old(scene).entries().len() ==> !poll_step_result(
                    old(scene).entries()[i].0.fence.state(),
                    left_polls@[i],
                ) {
                if left.draws@.len() > 0 {
                    assert(left.draws@[0].entry < old(scene).entries().len());
                }
            }
        }
        FramePlan { left, right }
    }
}

/// Which eye of the stereo pair.
#[derive(Clone, Copy, PartialEq, Eq, Structural, Debug)]
pub enum EyeSide {
    Left,
    Right,
}

/// What the engine tracks of the fixed graphics pipeline: its native handle
/// and whether its layout offers binding set 0, the slot every asset's
/// shader-binding set is built against.
#[derive(Clone, Copy, PartialEq, Eq, Structural, Debug)]
pub struct PipelineInfo {
    pub handle: u64,
    pub has_descriptor_set0: bool,
}

/// What queue-family selection reads of one family.
#[derive(Clone, Copy, PartialEq, Eq, Structural, Debug)]
pub struct QueueFamilyInfo {
    pub supports_graphics: bool,
    pub explicitly_supports_transfers: bool,
}

/// The "previous frame completion" handle: a fence of an in-flight
/// submission, or a fresh no-op sync point.
#[derive(Clone, Copy, PartialEq, Eq, Structural, Debug)]
pub enum FrameSync {
    /// A no-op sync point: nothing outstanding.
    Now,
    /// The fence of the most recent submission not yet known complete.
    Fence(u64),
}

/// The fatal ways flushing a submission can fail.
#[derive(Clone, Copy, PartialEq, Eq, Structural, Debug)]
pub enum FlushErrorKind {
    OomError,
    DeviceLost,
    AccessError,
    Timeout,
}

/// How submitting a frame's GPU work ended.
#[derive(Clone, Copy, PartialEq, Eq, Structural, Debug)]
pub enum SubmissionResult {
    /// The submission was flushed; the fence that will signal its
    /// completion.
    Signaled(u64),
    /// The render target no longer matches the display's expectations:
    /// transient, recovered by resetting the pacing state.
    OutOfDate,
    /// Any other failure: fatal.
    Failed(FlushErrorKind),
}

/// Why a frame could not be rendered.
#[derive(Clone, Copy, PartialEq, Eq, Structural, Debug)]
pub enum RenderError {
    /// Recording the frame's command buffer ran out of memory.
    OomError,
    /// Flushing the submission failed for good.
    FlushError(FlushErrorKind),
}

/// Why the renderer could not be constructed.
#[derive(Clone, Copy, PartialEq, Eq, Structural, Debug)]
pub enum RendererCreationError {
    /// No graphics device is available.
    NoDevices,
    /// No queue family supports graphics.
    NoQueue,
    LayersListError,
    InstanceCreationError,
    DeviceCreationError,
    OomError,
    RenderPassCreationError,
    GraphicsPipelineCreationError,
    EyeCreationError(EyeCreationError),
}

/// The renderer: instance/device identity, the graphics and transfer
/// queues, the fixed pipeline, both eye targets, and the frame-pacing
/// handle.
pub struct Renderer<T> {
    pub instance: u64,
    pub device: u64,
    pub queue: QueueInfo,
    pub load_queue: QueueInfo,
    pub pipeline: PipelineInfo,
    pub eyes: (Eye<T>, Eye<T>),
    /// The one "previous frame completion" handle. Replaced only by
    /// [`Renderer::complete_frame`], on every path.
    pub previous_frame_end: FrameSync,
}

/// Picks the physical device to render on: the device the VR runtime asks
/// for when it was found among the enumerated ones, else the requested
/// fallback index (the first device when none was requested), and an error
/// when that index does not exist.
pub fn select_physical_device(
    runtime_device: Option<usize>,
    fallback: Option<usize>,
    device_count: usize,
) -> (r: Result<usize, RendererCreationError>)
    requires
        runtime_device matches Some(i) ==> i < device_count,
    ensures
        runtime_device matches Some(i) ==> r == Ok::<usize, RendererCreationError>(i),
        runtime_device is None && fallback_index(fallback) < device_count ==> r == Ok::<
            usize,
            RendererCreationError,
        >(fallback_index(fallback)),
        runtime_device is None && fallback_index(fallback) >= device_count ==> r == Err::<
            usize,
            RendererCreationError,
        >(RendererCreationError::NoDevices),
{
    match runtime_device {
        Some(i) => Ok(i),
        None => {
            let d = match fallback {
                Some(d) => d,
                None => 0,
            };
            if d < device_count {
                Ok(d)
            } else {
                Err(RendererCreationError::NoDevices)
            }
        },
    }
}

/// The device index used when the VR runtime names none: the requested
/// fallback, or the first device.
pub open spec fn fallback_index(fallback: Option<usize>) -> usize {
    match fallback {
        Some(d) => d,
        None => 0,
    }
}

/// Whether some family in the list supports graphics.
pub open spec fn has_graphics_family(families: Seq<QueueFamilyInfo>) -> bool {
    exists|i: int| 0 <= i < families.len() && families[i].supports_graphics
}

/// Picks the two queue families the renderer uses: the first family that
/// supports graphics, and for uploads the first family that explicitly
/// supports transfers, falling back to the graphics family. Fails exactly
/// when no family supports graphics.
pub fn select_queue_families(families: &Vec<QueueFamilyInfo>) -> (r: Result<
    (usize, usize),
    RendererCreationError,
>)
    ensures
        r is Ok <==> has_graphics_family(families@),
        r matches Err(e) ==> e == RendererCreationError::NoQueue,
        r matches Ok((g, l)) ==> {
            &&& g < families@.len()
            &&& families@[g as int].supports_graphics
            &&& forall|j: int| 0 <= j < g ==> !families@[j].supports_graphics
            &&& if exists|i: int|
                0 <= i < families@.len() && families@[i].explicitly_supports_transfers {
                &&& l < families@.len()
                &&& families@[l as int].explicitly_supports_transfers
                &&& forall|j: int| 0 <= j < l ==> !families@[j].explicitly_supports_transfers
            } else {
                l == g
            }
        },
{
    let n = families.len();
    let mut graphics: Option<usize> = None;
    let mut i: usize = 0;
    while i < n
        invariant
            n == families@.len(),
            i <= n,
            graphics matches Some(g) ==> {
                &&& g < i
                &&& families@[g as int].supports_graphics
                &&& forall|j: int| 0 <= j < g ==> !families@[j].supports_graphics
            },
            graphics is None ==> forall|j: int| 0 <= j < i ==> !families@[j].supports_graphics,
        decreases n - i,
    {
        if graphics.is_none() && families[i].supports_graphics {
            graphics = Some(i);
        }
        i = i + 1;
    }
    let graphics = match graphics {
        Some(g) => g,
        None => {
            return Err(RendererCreationError::NoQueue);
        },
    };
    let mut load: Option<usize> = None;
    let mut i: usize = 0;
    while i < n
        invariant
            n == families@.len(),
            i <= n,
            load matches Some(l) ==> {
                &&& l < i
                &&& families@[l as int].explicitly_supports_transfers
                &&& forall|j: int| 0 <= j < l ==> !families@[j].explicitly_supports_transfers
            },
            load is None ==> forall|j: int| 0 <= j < i ==> !families@[j].explicitly_supports_transfers,
        decreases n - i,
    {
        if load.is_none() && families[i].explicitly_supports_transfers {
            load = Some(i);
        }
        i = i + 1;
    }
    match load {
        Some(l) => Ok((graphics, l)),
        None => Ok((graphics, graphics)),
    }
}

impl<T> Renderer<T> {
    /// Well-formedness: both eye targets are consistent with the graphics
    /// queue their images are rendered and exported from.
    pub open spec fn wf(&self) -> bool {
        &&& self.eyes.0.wf_for_queue(self.queue)
        &&& self.eyes.1.wf_for_queue(self.queue)
    }

    /// Builds the renderer: one eye target per eye at the recommended
    /// resolution out of the allocations the GPU layer performed, and a
    /// fresh no-op sync point as the initial "previous frame completion"
    /// handle. Failure of either eye target is fatal and reported as that
    /// eye's creation error, the left eye first.
    pub fn new(
        recommended_size: (u32, u32),
        projections: (T, T),
        instance: u64,
        device: u64,
        queue: QueueInfo,
        load_queue: QueueInfo,
        pipeline: PipelineInfo,
        left_resources: EyeResources,
        right_resources: EyeResources,
    ) -> (r: Result<Renderer<T>, RendererCreationError>)
        ensures
            r is Ok <==> eye_creation_ok(left_resources) && eye_creation_ok(right_resources),
            r matches Err(e) ==> e == RendererCreationError::EyeCreationError(
                if !eye_creation_ok(left_resources) {
                    eye_creation_error(left_resources)
                } else {
                    eye_creation_error(right_resources)
                },
            ),
            r matches Ok(rend) ==> {
                &&& rend.instance == instance
                &&& rend.device == device
                &&& rend.queue == queue
                &&& rend.load_queue == load_queue
                &&& rend.pipeline == pipeline
                &&& rend.eyes.0.built_from(recommended_size, queue, left_resources)
                &&& rend.eyes.0.projection == projections.0
                &&& rend.eyes.1.built_from(recommended_size, queue, right_resources)
                &&& rend.eyes.1.projection == projections.1
                &&& rend.previous_frame_end == FrameSync::Now
                &&& rend.wf()
            },
    {
        let (left_projection, right_projection) = projections;
        let left = match Eye::new(recommended_size, left_projection, &queue, left_resources) {
            Ok(eye) => eye,
            Err(e) => {
                return Err(RendererCreationError::EyeCreationError(e));
            },
        };
        let right = match Eye::new(recommended_size, right_projection, &queue, right_resources) {
            Ok(eye) => eye,
            Err(e) => {
                return Err(RendererCreationError::EyeCreationError(e));
            },
        };
        Ok(
            Renderer {
                instance,
                device,
                queue,
                load_queue,
                pipeline,
                eyes: (left, right),
                previous_frame_end: FrameSync::Now,
            },
        )
    }

    /// Recreates one eye target at a new resolution, after a resize: its
    /// images and framebuffer are replaced and its exported handle is
    /// rebuilt from the new color image. The other eye target — its
    /// exported handle included — and everything else the renderer holds
    /// are untouched; on failure the named eye is untouched too.
    pub fn recreate_eye(&mut self, side: EyeSide, new_size: (u32, u32), resources: EyeResources)
        -> (r: Result<(), EyeCreationError>)
        ensures
            r is Ok <==> eye_creation_ok(resources),
            r matches Err(e) ==> e == eye_creation_error(resources) && *final(self) == *old(self),
            side is Left ==> final(self).eyes.1 == old(self).eyes.1,
            side is Right ==> final(self).eyes.0 == old(self).eyes.0,
            r is Ok ==> {
                let eye = if side is Left {
                    final(self).eyes.0
                } else {
                    final(self).eyes.1
                };
                let before = if side is Left {
                    old(self).eyes.0
                } else {
                    old(self).eyes.1
                };
                &&& eye.built_from(new_size, old(self).queue, resources)
                &&& eye.projection == before.projection
            },
            final(self).instance == old(self).instance,
            final(self).device == old(self).device,
            final(self).queue == old(self).queue,
            final(self).load_queue == old(self).load_queue,
            final(self).pipeline == old(self).pipeline,
            final(self).previous_frame_end == old(self).previous_frame_end,
            old(self).wf() ==> final(self).wf(),
    {
        let queue = self.queue;
        match side {
            EyeSide::Left => {
                match self.eyes.0.recreate(new_size, &queue, resources) {
                    Ok(()) => Ok(()),
                    Err(e) => Err(e),
                }
            },
            EyeSide::Right => {
                match self.eyes.1.recreate(new_size, &queue, resources) {
                    Ok(()) => Ok(()),
                    Err(e) => Err(e),
                }
            },
        }
    }

    /// Closes one frame: consumes the "previous frame completion" handle
    /// and replaces it according to how the submission ended. A flushed
    /// submission leaves its fence; an out-of-date submission is transient
    /// and leaves a fresh no-op sync point; any other failure also leaves a
    /// fresh sync point but is fatal and reported to the caller.
    pub fn complete_frame(&mut self, result: SubmissionResult) -> (r: Result<(), RenderError>)
        ensures
            final(self).previous_frame_end == next_frame_sync(result),
            r is Ok <==> !(result is Failed),
            r matches Err(e) ==> result matches SubmissionResult::Failed(k) && e
                == RenderError::FlushError(k),
            final(self).instance == old(self).instance,
            final(self).device == old(self).device,
            final(self).queue == old(self).queue,
            final(self).load_queue == old(self).load_queue,
            final(self).pipeline == old(self).pipeline,
            final(self).eyes == old(self).eyes,
    {
        match result {
            SubmissionResult::Signaled(fence) => {
                self.previous_frame_end = FrameSync::Fence(fence);
                Ok(())
            },
            SubmissionResult::OutOfDate => {
                self.previous_frame_end = FrameSync::Now;
                Ok(())
            },
            SubmissionResult::Failed(kind) => {
                self.previous_frame_end = FrameSync::Now;
                Err(RenderError::FlushError(kind))
            },
        }
    }
}

/// The "previous frame completion" handle a frame leaves behind for each
/// way its submission can end.
pub open spec fn next_frame_sync(result: SubmissionResult) -> FrameSync {
    match result {
        SubmissionResult::Signaled(fence) => FrameSync::Fence(fence),
        SubmissionResult::OutOfDate => FrameSync::Now,
        SubmissionResult::Failed(_) => FrameSync::Now,
    }
}

/// How many frames a render loop that stops at the first fatal submission
/// attempts, out of a sequence of submission results.
pub open spec fn frames_attempted(results: Seq<SubmissionResult>) -> nat
    decreases results.len(),
{
    if results.len() == 0 {
        0
    } else if results[0] is Failed {
        1
    } else {
        1 + frames_attempted(results.drop_first())
    }
}

/// Law: a fatal submission terminates the loop — no frame after the first
/// fatal result is ever attempted — while a run without a fatal result
/// attempts every frame.
pub proof fn lemma_fatal_stops_loop(results: Seq<SubmissionResult>)
    ensures
        forall|i: int|
            0 <= i < results.len() && results[i] is Failed ==> frames_attempted(results) <= i + 1,
        (forall|i: int| 0 <= i < results.len() ==> !(#[trigger] results[i] is Failed))
            ==> frames_attempted(results) == results.len(),
    decreases results.len(),
{
    if results.len() > 0 && !(results[0] is Failed) {
        lemma_fatal_stops_loop(results.drop_first());
        assert forall|i: int|
            0 <= i < results.len() && results[i] is Failed implies frames_attempted(results) <= i
            + 1 by {
            assert(results.drop_first()[i - 1] == results[i]);
        }
        if forall|i: int| 0 <= i < results.len() ==> !(#[trigger] results[i] is Failed) {
            assert forall|i: int|
                0 <= i < results.drop_first().len() implies !(#[trigger] results.drop_first()[i] is
            Failed) by {
                assert(results.drop_first()[i] == results[i + 1]);
            }
        }
    }
}

} // verus!
