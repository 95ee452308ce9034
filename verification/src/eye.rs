//! Eye targets: one offscreen color+depth render target per eye, its
//! framebuffer, and the native texture handle exported to the compositor.
//!
//! The GPU layer allocates the images and builds the framebuffer; the eye
//! target records their handles and properties. The exported handle is
//! assembled from the color image and the queue that renders into it, and it
//! is rebuilt — never patched in place — whenever the image is recreated.

use vstd::prelude::*;

use crate::openvr_vulkan::AllocOutcome;
use crate::openvr_vulkan::ImageFormat;
use crate::openvr_vulkan::ImageInfo;
use crate::openvr_vulkan::QueueInfo;

verus! {

/// Color space the exported texture is interpreted in.
#[derive(Clone, Copy, PartialEq, Eq, Structural, Debug)]
pub enum ColorSpace {
    Auto,
    Gamma,
    Linear,
}

/// The opaque native handle handed to the external compositor: the color
/// image's identifier together with the device/queue identity and the
/// image's properties.
#[derive(Clone, Copy, PartialEq, Eq, Structural, Debug)]
pub struct Texture {
    pub image: u64,
    pub device: u64,
    pub physical_device: u64,
    pub instance: u64,
    pub queue: u64,
    pub queue_family_index: u32,
    pub width: u32,
    pub height: u32,
    pub format: ImageFormat,
    pub sample_count: u32,
    pub color_space: ColorSpace,
}

/// Why an eye target could not be created.
#[derive(Clone, Copy, PartialEq, Eq, Structural, Debug)]
pub enum EyeCreationError {
    ImageCreationError,
    FramebufferCreationError,
}

/// The outcomes of the allocations one eye target needs: the color image,
/// the transient depth image, and the framebuffer attaching both.
#[derive(Clone, Copy, PartialEq, Eq, Structural, Debug)]
pub struct EyeResources {
    pub color_image: AllocOutcome,
    pub depth_image: AllocOutcome,
    pub frame_buffer: AllocOutcome,
}

/// One eye's render target: color and depth images of identical extent, the
/// framebuffer attaching them, the projection for this eye, and the handle
/// exported to the compositor.
pub struct Eye<T> {
    pub image: ImageInfo,
    pub depth_image: ImageInfo,
    pub texture: Texture,
    pub projection: T,
    pub frame_buffer: u64,
}

/// The exported handle an image is published under: its own identity and
/// properties, plus the identity of the queue that renders into it, in
/// gamma color space.
pub open spec fn export_texture(image: ImageInfo, queue: QueueInfo) -> Texture {
    Texture {
        image: image.handle,
        device: queue.device,
        physical_device: queue.physical_device,
        instance: queue.instance,
        queue: queue.queue,
        queue_family_index: queue.family_index,
        width: image.width,
        height: image.height,
        format: image.format,
        sample_count: image.samples,
        color_space: ColorSpace::Gamma,
    }
}

/// Whether eye-target creation succeeds for these allocation outcomes.
pub open spec fn eye_creation_ok(resources: EyeResources) -> bool {
    &&& resources.color_image is Allocated
    &&& resources.depth_image is Allocated
    &&& resources.frame_buffer is Allocated
}

/// The error eye-target creation reports when it fails, in the order the
/// stages run: color image, depth image, framebuffer.
pub open spec fn eye_creation_error(resources: EyeResources) -> EyeCreationError {
    if resources.color_image is Failed || resources.depth_image is Failed {
        EyeCreationError::ImageCreationError
    } else {
        EyeCreationError::FramebufferCreationError
    }
}

impl<T> Eye<T> {
    /// Well-formedness: color and depth images have identical extent, one
    /// sample, their fixed formats, and the exported handle is exactly the
    /// export of the current color image.
    pub open spec fn wf_for_queue(&self, queue: QueueInfo) -> bool {
        &&& self.image.width == self.depth_image.width
        &&& self.image.height == self.depth_image.height
        &&& self.image.format == ImageFormat::R8G8B8A8Srgb
        &&& self.depth_image.format == ImageFormat::D16Unorm
        &&& self.image.samples == 1
        &&& self.depth_image.samples == 1
        &&& self.texture == export_texture(self.image, queue)
    }

    /// The fields a successful (re)creation at `size` out of `resources`
    /// establishes, the projection aside.
    pub open spec fn built_from(
        &self,
        size: (u32, u32),
        queue: QueueInfo,
        resources: EyeResources,
    ) -> bool {
        &&& self.image == (ImageInfo {
            handle: resources.color_image->Allocated_0,
            width: size.0,
            height: size.1,
            format: ImageFormat::R8G8B8A8Srgb,
            samples: 1,
        })
        &&& self.depth_image == (ImageInfo {
            handle: resources.depth_image->Allocated_0,
            width: size.0,
            height: size.1,
            format: ImageFormat::D16Unorm,
            samples: 1,
        })
        &&& self.texture == export_texture(self.image, queue)
        &&& self.frame_buffer == resources.frame_buffer->Allocated_0
    }

    /// Builds one eye target at the given resolution from the allocations
    /// the GPU layer performed, exporting the color image as the
    /// compositor's texture handle. Fails with the first failed stage's
    /// error.
    pub fn new(
        recommended_size: (u32, u32),
        projection: T,
        queue: &QueueInfo,
        resources: EyeResources,
    ) -> (r: Result<Eye<T>, EyeCreationError>)
        ensures
            r is Ok <==> eye_creation_ok(resources),
            r matches Err(e) ==> e == eye_creation_error(resources),
            r matches Ok(eye) ==> {
                &&& eye.built_from(recommended_size, *queue, resources)
                &&& eye.projection == projection
                &&& eye.wf_for_queue(*queue)
            },
    {
        let color_handle = match resources.color_image {
            AllocOutcome::Allocated(h) => h,
            AllocOutcome::Failed => {
                return Err(EyeCreationError::ImageCreationError);
            },
        };
        let depth_handle = match resources.depth_image {
            AllocOutcome::Allocated(h) => h,
            AllocOutcome::Failed => {
                return Err(EyeCreationError::ImageCreationError);
            },
        };
        let frame_buffer = match resources.frame_buffer {
            AllocOutcome::Allocated(h) => h,
            AllocOutcome::Failed => {
                return Err(EyeCreationError::FramebufferCreationError);
            },
        };
        let image = ImageInfo {
            handle: color_handle,
            width: recommended_size.0,
            height: recommended_size.1,
            format: ImageFormat::R8G8B8A8Srgb,
            samples: 1,
        };
        let depth_image = ImageInfo {
            handle: depth_handle,
            width: recommended_size.0,
            height: recommended_size.1,
            format: ImageFormat::D16Unorm,
            samples: 1,
        };
        let texture = Texture {
            image: image.handle,
            device: queue.device,
            physical_device: queue.physical_device,
            instance: queue.instance,
            queue: queue.queue,
            queue_family_index: queue.family_index,
            width: image.width,
            height: image.height,
            format: image.format,
            sample_count: image.samples,
            color_space: ColorSpace::Gamma,
        };
        Ok(Eye { image, depth_image, texture, projection, frame_buffer })
    }

    /// Replaces this eye's images and framebuffer with freshly allocated
    /// ones at a new resolution, rebuilding the exported handle from the
    /// new color image. On failure nothing is changed; the projection is
    /// kept either way.
    pub fn recreate(
        &mut self,
        new_size: (u32, u32),
        queue: &QueueInfo,
        resources: EyeResources,
    ) -> (r: Result<(), EyeCreationError>)
        ensures
            r is Ok <==> eye_creation_ok(resources),
            r matches Err(e) ==> e == eye_creation_error(resources) && *final(self) == *old(self),
            r is Ok ==> {
                &&& final(self).built_from(new_size, *queue, resources)
                &&& final(self).projection == old(self).projection
                &&& final(self).wf_for_queue(*queue)
            },
    {
        let color_handle = match resources.color_image {
            AllocOutcome::Allocated(h) => h,
            AllocOutcome::Failed => {
                return Err(EyeCreationError::ImageCreationError);
            },
        };
        let depth_handle = match resources.depth_image {
            AllocOutcome::Allocated(h) => h,
            AllocOutcome::Failed => {
                return Err(EyeCreationError::ImageCreationError);
            },
        };
        let frame_buffer = match resources.frame_buffer {
            AllocOutcome::Allocated(h) => h,
            AllocOutcome::Failed => {
                return Err(EyeCreationError::FramebufferCreationError);
            },
        };
        self.image = ImageInfo {
            handle: color_handle,
            width: new_size.0,
            height: new_size.1,
            format: ImageFormat::R8G8B8A8Srgb,
            samples: 1,
        };
        self.depth_image = ImageInfo {
            handle: depth_handle,
            width: new_size.0,
            height: new_size.1,
            format: ImageFormat::D16Unorm,
            samples: 1,
        };
        self.texture = Texture {
            image: self.image.handle,
            device: queue.device,
            physical_device: queue.physical_device,
            instance: queue.instance,
            queue: queue.queue,
            queue_family_index: queue.family_index,
            width: self.image.width,
            height: self.image.height,
            format: self.image.format,
            sample_count: self.image.samples,
            color_space: ColorSpace::Gamma,
        };
        self.frame_buffer = frame_buffer;
        Ok(())
    }
}

} // verus!
