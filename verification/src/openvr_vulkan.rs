//! Plain-value stand-ins for the native graphics handles the engine tracks.
//!
//! The GPU layer owns the real instance/device/queue/image objects; the
//! engine only records their native identifiers, the values that are packed
//! into the texture handle exported to the compositor. [`OpenVRPtr`] is the
//! common way to ask a tracked object for that identifier.

use vstd::prelude::*;

verus! {

/// Pixel format of a tracked image.
#[derive(Clone, Copy, PartialEq, Eq, Structural, Debug)]
pub enum ImageFormat {
    /// The color render target format.
    R8G8B8A8Srgb,
    /// The depth attachment format.
    D16Unorm,
}

/// The outcome of one resource allocation performed by the GPU layer: the
/// native handle of the new resource, or a failure.
#[derive(Clone, Copy, PartialEq, Eq, Structural, Debug)]
pub enum AllocOutcome {
    Allocated(u64),
    Failed,
}

/// What the engine tracks of one GPU image: its native handle and the
/// properties that are read back when exporting it.
#[derive(Clone, Copy, PartialEq, Eq, Structural, Debug)]
pub struct ImageInfo {
    pub handle: u64,
    pub width: u32,
    pub height: u32,
    pub format: ImageFormat,
    pub samples: u32,
}

/// Native identifiers of a queue and of the instance/device it belongs to,
/// as the exported texture handle needs them.
#[derive(Clone, Copy, PartialEq, Eq, Structural, Debug)]
pub struct QueueInfo {
    pub instance: u64,
    pub physical_device: u64,
    pub device: u64,
    pub queue: u64,
    pub family_index: u32,
}

/// Access to the native identifier of a tracked object.
pub trait OpenVRPtr {
    type PtrType;

    /// The identifier [`Self::as_ptr`] returns.
    spec fn spec_ptr(&self) -> Self::PtrType;

    /// The native identifier of this object.
    fn as_ptr(&self) -> (r: Self::PtrType)
        ensures
            r == self.spec_ptr(),
    ;
}

impl OpenVRPtr for ImageInfo {
    type PtrType = u64;

    open spec fn spec_ptr(&self) -> u64 {
        self.handle
    }

    fn as_ptr(&self) -> u64 {
        self.handle
    }
}

impl OpenVRPtr for QueueInfo {
    type PtrType = u64;

    open spec fn spec_ptr(&self) -> u64 {
        self.queue
    }

    fn as_ptr(&self) -> u64 {
        self.queue
    }
}

} // verus!
