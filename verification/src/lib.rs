//! Core engine of a stereo head-mounted-display renderer: the asynchronous
//! upload/readiness state machine for GPU assets, the per-eye render-target
//! bookkeeping, the frame-pacing protocol that chains GPU work across frames,
//! and the dynamic scene table that attaches renderable entries as tracked
//! devices appear.
//!
//! GPU submission, pose acquisition and asset decoding happen outside this
//! library; they hand in plain values (handles, wait outcomes, submission
//! results) and the library decides what happens next.

mod eye;
mod fence;
mod model;
mod openvr_vulkan;
mod renderer;
mod scene;
mod swap_cell;

pub use eye::ColorSpace;
pub use eye::Eye;
pub use eye::EyeCreationError;
pub use eye::EyeResources;
pub use eye::Texture;
pub use eye::export_texture;
pub use eye::eye_creation_error;
pub use eye::eye_creation_ok;

pub use fence::FenceCheck;
pub use fence::FenceState;
pub use fence::WaitOutcome;
pub use fence::lemma_poll_monotonic;
pub use fence::lemma_settled_stable;
pub use fence::poll_many;
pub use fence::poll_step_result;
pub use fence::poll_step_state;
pub use fence::state_of_code;

pub use model::Model;
pub use model::ModelError;
pub use model::ModelUploads;
pub use model::SetBuildOutcome;
pub use model::creation_error;
pub use model::creation_ok;
pub use model::polled_from;

pub use openvr_vulkan::AllocOutcome;
pub use openvr_vulkan::ImageFormat;
pub use openvr_vulkan::ImageInfo;
pub use openvr_vulkan::OpenVRPtr;
pub use openvr_vulkan::QueueInfo;

pub use renderer::DrawCall;
pub use renderer::EyePass;
pub use renderer::EyeSide;
pub use renderer::FlushErrorKind;
pub use renderer::FramePlan;
pub use renderer::FrameSync;
pub use renderer::PipelineInfo;
pub use renderer::QueueFamilyInfo;
pub use renderer::RenderError;
pub use renderer::Renderer;
pub use renderer::RendererCreationError;
pub use renderer::SubmissionResult;
pub use renderer::draws_ready_entries;
pub use renderer::draws_ready_entries_after;
pub use renderer::frames_attempted;
pub use renderer::lemma_fatal_stops_loop;
pub use renderer::next_frame_sync;
pub use renderer::select_physical_device;
pub use renderer::select_queue_families;

pub use scene::PoseAction;
pub use scene::SceneTable;
pub use scene::TrackedDeviceClass;
pub use scene::latest_pose;
pub use scene::lemma_latest_pose;
pub use scene::refresh_all;
pub use scene::refresh_one;
pub use scene::table_map_wf;
