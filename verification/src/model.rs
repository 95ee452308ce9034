//! Assets: an uploaded mesh + texture + shader-binding set, usable for
//! drawing only once the fence-tracked upload covering all of it reports
//! success.
//!
//! Creation is non-blocking: the GPU layer starts the uploads on the
//! transfer queue and hands in the outcome of each allocation; the asset is
//! assembled here, every failure mapped to its error, and the fence starts
//! pending. Callers must poll [`Model::loaded`] before drawing.

use vstd::prelude::*;

use crate::fence::FenceCheck;
use crate::fence::FenceState;
use crate::fence::WaitOutcome;
use crate::fence::poll_step_result;
use crate::fence::poll_step_state;
use crate::openvr_vulkan::AllocOutcome;
use crate::renderer::PipelineInfo;

verus! {

/// Why an asset could not be created.
#[derive(Clone, Copy, PartialEq, Eq, Structural, Debug)]
pub enum ModelError {
    /// The renderer's pipeline layout has no binding set 0: a configuration
    /// error, fatal.
    NoLayout,
    /// A vertex or index buffer allocation failed.
    DeviceMemoryAllocError,
    /// The texture image could not be created.
    ImageCreationError,
    /// The joined upload operations could not be flushed into a fence.
    FlushError,
    /// The sampled image could not be added to the shader-binding set.
    PersistentDescriptorSetError,
    /// The shader-binding set could not be built.
    PersistentDescriptorSetBuildError,
}

/// Outcome of building the shader-binding set for the asset's texture.
#[derive(Clone, Copy, PartialEq, Eq, Structural, Debug)]
pub enum SetBuildOutcome {
    /// The set was built; its native handle.
    Built(u64),
    /// Adding the sampled image to the set failed.
    AddFailed,
    /// The final build of the set failed.
    BuildFailed,
}

/// The outcomes of the upload operations the GPU layer started for one
/// asset. `indices` is `None` when no index buffer was requested.
#[derive(Clone, Copy, PartialEq, Eq, Structural, Debug)]
pub struct ModelUploads {
    pub vertices: AllocOutcome,
    pub indices: Option<AllocOutcome>,
    pub image: AllocOutcome,
    pub set: SetBuildOutcome,
    /// Joining the uploads into one completion signal: the fence handle, or
    /// a flush failure.
    pub fence: AllocOutcome,
}

/// An asset: buffers, texture image and shader-binding set allocated up
/// front, plus the fence-tracked upload covering all of them.
pub struct Model {
    pub vertices: u64,
    pub indices: Option<u64>,
    pub image: u64,
    pub set: u64,
    pub fence: FenceCheck,
}

/// Whether asset creation succeeds for these upload outcomes against this
/// pipeline: every requested allocation succeeded and the pipeline layout
/// has binding set 0.
pub open spec fn creation_ok(uploads: ModelUploads, pipeline: PipelineInfo) -> bool {
    &&& uploads.vertices is Allocated
    &&& uploads.indices matches Some(o) ==> o is Allocated
    &&& uploads.image is Allocated
    &&& pipeline.has_descriptor_set0
    &&& uploads.set is Built
    &&& uploads.fence is Allocated
}

/// The error asset creation reports when it fails, in the order the stages
/// run: buffers, texture, layout lookup, binding set, fence flush.
pub open spec fn creation_error(uploads: ModelUploads, pipeline: PipelineInfo) -> ModelError {
    if uploads.vertices is Failed {
        ModelError::DeviceMemoryAllocError
    } else if uploads.indices matches Some(o) && o is Failed {
        ModelError::DeviceMemoryAllocError
    } else if uploads.image is Failed {
        ModelError::ImageCreationError
    } else if !pipeline.has_descriptor_set0 {
        ModelError::NoLayout
    } else if uploads.set is AddFailed {
        ModelError::PersistentDescriptorSetError
    } else if uploads.set is BuildFailed {
        ModelError::PersistentDescriptorSetBuildError
    } else {
        ModelError::FlushError
    }
}

/// How a poll changes an asset: the buffers, binding set and fence handle
/// stay what they were, and the fence state takes one step for the given
/// wait outcome.
pub open spec fn polled_from(before: Model, after: Model, outcome: WaitOutcome) -> bool {
    &&& after.vertices == before.vertices
    &&& after.indices == before.indices
    &&& after.image == before.image
    &&& after.set == before.set
    &&& after.fence.handle == before.fence.handle
    &&& after.fence.state() == poll_step_state(before.fence.state(), outcome)
}

impl Model {
    /// Builds the asset from the outcome of each upload the GPU layer
    /// started, without waiting for any of them: the fence starts pending,
    /// and the asset must not be drawn before [`Model::loaded`] reports
    /// true. Fails with the first stage's error, and with `NoLayout` when
    /// the pipeline layout has no binding set 0.
    pub fn new(uploads: ModelUploads, pipeline: &PipelineInfo) -> (r: Result<Model, ModelError>)
        ensures
            r is Ok <==> creation_ok(uploads, *pipeline),
            r matches Err(e) ==> e == creation_error(uploads, *pipeline),
            r matches Ok(m) ==> {
                &&& uploads.vertices matches AllocOutcome::Allocated(h) && m.vertices == h
                &&& m.indices == match uploads.indices {
                    Some(AllocOutcome::Allocated(h)) => Some(h),
                    _ => None::<u64>,
                }
                &&& uploads.image matches AllocOutcome::Allocated(h) && m.image == h
                &&& uploads.set matches SetBuildOutcome::Built(h) && m.set == h
                &&& uploads.fence matches AllocOutcome::Allocated(h) && m.fence.handle == h
                &&& m.fence.state() == FenceState::Pending
            },
    {
        let vertices = match uploads.vertices {
            AllocOutcome::Allocated(h) => h,
            AllocOutcome::Failed => {
                return Err(ModelError::DeviceMemoryAllocError);
            },
        };
        let indices = match uploads.indices {
            Some(AllocOutcome::Allocated(h)) => Some(h),
            Some(AllocOutcome::Failed) => {
                return Err(ModelError::DeviceMemoryAllocError);
            },
            None => None,
        };
        let image = match uploads.image {
            AllocOutcome::Allocated(h) => h,
            AllocOutcome::Failed => {
                return Err(ModelError::ImageCreationError);
            },
        };
        if !pipeline.has_descriptor_set0 {
            return Err(ModelError::NoLayout);
        }
        let set = match uploads.set {
            SetBuildOutcome::Built(h) => h,
            SetBuildOutcome::AddFailed => {
                return Err(ModelError::PersistentDescriptorSetError);
            },
            SetBuildOutcome::BuildFailed => {
                return Err(ModelError::PersistentDescriptorSetBuildError);
            },
        };
        let fence_handle = match uploads.fence {
            AllocOutcome::Allocated(h) => h,
            AllocOutcome::Failed => {
                return Err(ModelError::FlushError);
            },
        };
        Ok(Model { vertices, indices, image, set, fence: FenceCheck::new(fence_handle) })
    }

    /// One non-blocking readiness poll: true once the whole upload has
    /// completed, false while it is in flight or after it failed for good.
    /// `outcome` is what the zero-duration wait on the fence reported; it is
    /// consulted only while the state is still pending.
    pub fn loaded(&mut self, outcome: WaitOutcome) -> (r: bool)
        ensures
            final(self).fence.state() == poll_step_state(old(self).fence.state(), outcome),
            r == poll_step_result(old(self).fence.state(), outcome),
            final(self).fence.handle == old(self).fence.handle,
            final(self).vertices == old(self).vertices,
            final(self).indices == old(self).indices,
            final(self).image == old(self).image,
            final(self).set == old(self).set,
    {
        self.fence.poll(outcome)
    }

    /// A second entry sharing this asset's buffers and binding set, with a
    /// readiness cell of its own that starts in the same state.
    pub fn duplicate(&self) -> (m: Model)
        ensures
            m.vertices == self.vertices,
            m.indices == self.indices,
            m.image == self.image,
            m.set == self.set,
            m.fence.state() == self.fence.state(),
            m.fence.handle == self.fence.handle,
    {
        Model {
            vertices: self.vertices,
            indices: self.indices,
            image: self.image,
            set: self.set,
            fence: self.fence.duplicate(),
        }
    }
}

} // verus!
