//! The per-frame protocol: draw-list recording, frame pacing, and the
//! classification of submission failures.

use stereo_renderer::AllocOutcome;
use stereo_renderer::EyeResources;
use stereo_renderer::FlushErrorKind;
use stereo_renderer::FrameSync;
use stereo_renderer::Model;
use stereo_renderer::ModelUploads;
use stereo_renderer::PipelineInfo;
use stereo_renderer::QueueInfo;
use stereo_renderer::RenderError;
use stereo_renderer::Renderer;
use stereo_renderer::SceneTable;
use stereo_renderer::SetBuildOutcome;
use stereo_renderer::SubmissionResult;
use stereo_renderer::WaitOutcome;

type Pose = f32;

fn queue() -> QueueInfo {
    QueueInfo { instance: 1, physical_device: 2, device: 3, queue: 4, family_index: 0 }
}

fn load_queue() -> QueueInfo {
    QueueInfo { instance: 1, physical_device: 2, device: 3, queue: 5, family_index: 1 }
}

fn pipeline() -> PipelineInfo {
    PipelineInfo { handle: 77, has_descriptor_set0: true }
}

fn eye_resources(base: u64) -> EyeResources {
    EyeResources {
        color_image: AllocOutcome::Allocated(base),
        depth_image: AllocOutcome::Allocated(base + 1),
        frame_buffer: AllocOutcome::Allocated(base + 2),
    }
}

fn renderer() -> Renderer<Pose> {
    Renderer::new(
        (1024, 1024),
        (-1.0, 1.0),
        1,
        3,
        queue(),
        load_queue(),
        pipeline(),
        eye_resources(200),
        eye_resources(300),
    )
    .unwrap()
}

fn make_model(base: u64) -> Model {
    Model::new(
        ModelUploads {
            vertices: AllocOutcome::Allocated(base),
            indices: Some(AllocOutcome::Allocated(base + 1)),
            image: AllocOutcome::Allocated(base + 2),
            set: SetBuildOutcome::Built(base + 3),
            fence: AllocOutcome::Allocated(base + 4),
        },
        &pipeline(),
    )
    .unwrap()
}

#[test]
fn empty_frame_records_both_passes_and_advances_pacing() {
    let rend = renderer();
    let mut scene: SceneTable<Pose> = SceneTable::new();
    scene.push(make_model(10), 0.5);
    scene.push(make_model(20), 1.5);

    // No upload has completed: zero draw calls for either eye, but both
    // passes are still begun and ended against their framebuffers.
    let polls = vec![WaitOutcome::Timeout, WaitOutcome::Timeout];
    let plan = rend.record_frame(&mut scene, &polls, &polls);
    assert_eq!(plan.left.draws.len(), 0);
    assert_eq!(plan.right.draws.len(), 0);
    assert_eq!(plan.left.frame_buffer, 202);
    assert_eq!(plan.right.frame_buffer, 302);

    // The idempotent empty frame still advances the frame-pacing state.
    let mut rend = rend;
    assert_eq!(rend.previous_frame_end, FrameSync::Now);
    assert!(rend.complete_frame(SubmissionResult::Signaled(42)).is_ok());
    assert_eq!(rend.previous_frame_end, FrameSync::Fence(42));
}

#[test]
fn ready_assets_are_drawn_in_entry_order() {
    let rend = renderer();
    let mut scene: SceneTable<Pose> = SceneTable::new();
    scene.push(make_model(10), 0.5);
    scene.push(make_model(20), 1.5);
    scene.push(make_model(30), 2.5);

    // Entries 0 and 2 finish their uploads; entry 1 stays in flight.
    let polls = vec![WaitOutcome::Signaled, WaitOutcome::Timeout, WaitOutcome::Signaled];
    let later = vec![WaitOutcome::Timeout, WaitOutcome::Timeout, WaitOutcome::Timeout];
    let plan = rend.record_frame(&mut scene, &polls, &later);
    assert_eq!(plan.left.draws.len(), 2);
    assert_eq!(plan.left.draws[0].entry, 0);
    assert_eq!(plan.left.draws[0].vertices, 10);
    assert_eq!(plan.left.draws[0].indices, Some(11));
    assert_eq!(plan.left.draws[0].set, 13);
    assert_eq!(plan.left.draws[1].entry, 2);
    assert_eq!(plan.left.draws[1].vertices, 30);
    // Settled states answer without consulting the wait: both stay ready
    // for the right eye.
    assert_eq!(plan.right.draws.len(), 2);
    assert_eq!(plan.right.draws[0].entry, 0);
    assert_eq!(plan.right.draws[1].entry, 2);
}

#[test]
fn asset_becoming_ready_between_eyes_joins_the_right_pass() {
    let rend = renderer();
    let mut scene: SceneTable<Pose> = SceneTable::new();
    scene.push(make_model(10), 0.5);

    let left = vec![WaitOutcome::Timeout];
    let right = vec![WaitOutcome::Signaled];
    let plan = rend.record_frame(&mut scene, &left, &right);
    assert_eq!(plan.left.draws.len(), 0);
    assert_eq!(plan.right.draws.len(), 1);
    assert_eq!(plan.right.draws[0].entry, 0);
}

#[test]
fn failed_upload_is_skipped_forever() {
    let rend = renderer();
    let mut scene: SceneTable<Pose> = SceneTable::new();
    scene.push(make_model(10), 0.5);

    let failed = vec![WaitOutcome::Failed];
    let signaled = vec![WaitOutcome::Signaled];
    let plan = rend.record_frame(&mut scene, &failed, &signaled);
    assert_eq!(plan.left.draws.len(), 0);
    // Permanently failed: even a signaled wait on a later frame cannot
    // bring it into a draw list.
    assert_eq!(plan.right.draws.len(), 0);
    let plan2 = rend.record_frame(&mut scene, &signaled, &signaled);
    assert_eq!(plan2.left.draws.len(), 0);
    assert_eq!(plan2.right.draws.len(), 0);
}

#[test]
fn out_of_date_submission_is_transient() {
    let mut rend = renderer();
    assert!(rend.complete_frame(SubmissionResult::Signaled(42)).is_ok());
    assert_eq!(rend.previous_frame_end, FrameSync::Fence(42));

    // The compositor reports the target out of date: not fatal, and the
    // pacing handle is a fresh, unsignaled sync point.
    assert!(rend.complete_frame(SubmissionResult::OutOfDate).is_ok());
    assert_eq!(rend.previous_frame_end, FrameSync::Now);

    // The loop continues: the following frame submits normally.
    assert!(rend.complete_frame(SubmissionResult::Signaled(43)).is_ok());
    assert_eq!(rend.previous_frame_end, FrameSync::Fence(43));
}

#[test]
fn fatal_submission_terminates_the_loop() {
    let mut rend = renderer();
    let mut frames_run = 0u32;
    let results = [
        SubmissionResult::Signaled(1),
        SubmissionResult::Failed(FlushErrorKind::DeviceLost),
        SubmissionResult::Signaled(2),
    ];
    let mut fatal = None;
    for result in results {
        frames_run += 1;
        if let Err(e) = rend.complete_frame(result) {
            fatal = Some(e);
            break;
        }
    }
    // The loop stopped at the fatal result and never attempted the third
    // frame.
    assert_eq!(frames_run, 2);
    assert_eq!(fatal, Some(RenderError::FlushError(FlushErrorKind::DeviceLost)));
    // The pacing handle was still replaced on the failure path.
    assert_eq!(rend.previous_frame_end, FrameSync::Now);
}
