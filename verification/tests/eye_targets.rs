//! Eye targets and their exported compositor handles.

use stereo_renderer::AllocOutcome;
use stereo_renderer::ColorSpace;
use stereo_renderer::Eye;
use stereo_renderer::EyeCreationError;
use stereo_renderer::EyeResources;
use stereo_renderer::EyeSide;
use stereo_renderer::ImageFormat;
use stereo_renderer::PipelineInfo;
use stereo_renderer::QueueInfo;
use stereo_renderer::Renderer;
use stereo_renderer::RendererCreationError;

fn queue() -> QueueInfo {
    QueueInfo { instance: 11, physical_device: 12, device: 13, queue: 14, family_index: 2 }
}

fn resources(base: u64) -> EyeResources {
    EyeResources {
        color_image: AllocOutcome::Allocated(base),
        depth_image: AllocOutcome::Allocated(base + 1),
        frame_buffer: AllocOutcome::Allocated(base + 2),
    }
}

#[test]
fn exported_handle_carries_image_and_queue_identity() {
    let eye: Eye<f32> = Eye::new((100, 100), 1.0, &queue(), resources(500)).unwrap();
    assert_eq!(eye.image.width, 100);
    assert_eq!(eye.image.height, 100);
    assert_eq!(eye.image.format, ImageFormat::R8G8B8A8Srgb);
    assert_eq!(eye.depth_image.width, 100);
    assert_eq!(eye.depth_image.height, 100);
    assert_eq!(eye.depth_image.format, ImageFormat::D16Unorm);
    assert_eq!(eye.texture.image, 500);
    assert_eq!(eye.texture.instance, 11);
    assert_eq!(eye.texture.physical_device, 12);
    assert_eq!(eye.texture.device, 13);
    assert_eq!(eye.texture.queue, 14);
    assert_eq!(eye.texture.queue_family_index, 2);
    assert_eq!(eye.texture.width, 100);
    assert_eq!(eye.texture.height, 100);
    assert_eq!(eye.texture.format, ImageFormat::R8G8B8A8Srgb);
    assert_eq!(eye.texture.sample_count, 1);
    assert_eq!(eye.texture.color_space, ColorSpace::Gamma);
    assert_eq!(eye.frame_buffer, 502);
}

#[test]
fn eye_creation_errors_name_the_failed_stage() {
    let no_color = EyeResources {
        color_image: AllocOutcome::Failed,
        depth_image: AllocOutcome::Allocated(1),
        frame_buffer: AllocOutcome::Allocated(2),
    };
    let r: Result<Eye<f32>, _> = Eye::new((10, 10), 0.0, &queue(), no_color);
    assert_eq!(r.err(), Some(EyeCreationError::ImageCreationError));

    let no_depth = EyeResources {
        color_image: AllocOutcome::Allocated(1),
        depth_image: AllocOutcome::Failed,
        frame_buffer: AllocOutcome::Allocated(2),
    };
    let r: Result<Eye<f32>, _> = Eye::new((10, 10), 0.0, &queue(), no_depth);
    assert_eq!(r.err(), Some(EyeCreationError::ImageCreationError));

    let no_fb = EyeResources {
        color_image: AllocOutcome::Allocated(1),
        depth_image: AllocOutcome::Allocated(2),
        frame_buffer: AllocOutcome::Failed,
    };
    let r: Result<Eye<f32>, _> = Eye::new((10, 10), 0.0, &queue(), no_fb);
    assert_eq!(r.err(), Some(EyeCreationError::FramebufferCreationError));
}

#[test]
fn failed_eye_is_fatal_to_renderer_construction() {
    let bad = EyeResources {
        color_image: AllocOutcome::Allocated(1),
        depth_image: AllocOutcome::Allocated(2),
        frame_buffer: AllocOutcome::Failed,
    };
    let r: Result<Renderer<f32>, _> = Renderer::new(
        (100, 100),
        (0.0, 0.0),
        1,
        2,
        queue(),
        queue(),
        PipelineInfo { handle: 1, has_descriptor_set0: true },
        resources(600),
        bad,
    );
    assert_eq!(
        r.err(),
        Some(RendererCreationError::EyeCreationError(EyeCreationError::FramebufferCreationError))
    );
}

#[test]
fn matching_stereo_exports_and_independent_recreation() {
    // Two eye targets created at (100, 100) export handles with matching
    // width, height and format.
    let mut rend: Renderer<f32> = Renderer::new(
        (100, 100),
        (-1.0, 1.0),
        1,
        2,
        queue(),
        queue(),
        PipelineInfo { handle: 1, has_descriptor_set0: true },
        resources(600),
        resources(700),
    )
    .unwrap();
    let left = rend.eyes.0.texture;
    let right = rend.eyes.1.texture;
    assert_eq!(left.width, right.width);
    assert_eq!(left.height, right.height);
    assert_eq!(left.format, right.format);
    assert_ne!(left.image, right.image);

    // Recreating the left eye after a simulated resize rebuilds its
    // exported handle and leaves the right eye's handle untouched.
    rend.recreate_eye(EyeSide::Left, (128, 128), resources(800)).unwrap();
    assert_eq!(rend.eyes.0.texture.image, 800);
    assert_eq!(rend.eyes.0.texture.width, 128);
    assert_eq!(rend.eyes.0.texture.height, 128);
    assert_eq!(rend.eyes.1.texture, right);

    // A failed recreation leaves the named eye untouched too.
    let bad = EyeResources {
        color_image: AllocOutcome::Failed,
        depth_image: AllocOutcome::Allocated(1),
        frame_buffer: AllocOutcome::Allocated(2),
    };
    let before = rend.eyes.0.texture;
    assert_eq!(
        rend.recreate_eye(EyeSide::Left, (256, 256), bad),
        Err(EyeCreationError::ImageCreationError)
    );
    assert_eq!(rend.eyes.0.texture, before);
}
