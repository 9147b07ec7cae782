//! When the GPU copy of the camera is refreshed.
//!
//! The frame host marks the camera dirty whenever an event changed it, and a
//! resize always does. Once per frame, before the draw, a dirty camera is
//! packed and handed over for upload, and the mark is cleared: so the draw
//! reads the camera as it stood after the frame's events.

use vstd::prelude::*;
use crate::uniform::CameraUniform;

verus! {

/// What the host does in one frame.
#[derive(Debug)]
pub struct FramePlan {
    /// Bytes to copy into the uniform buffer before the draw, if any.
    pub upload: Option<Vec<u8>>,
    /// Whether to record and submit the draw; false when no output image was
    /// available, in which case the frame is skipped and the camera kept.
    pub draw: bool,
}

/// The host's record of whether the GPU copy of the camera is current.
pub struct FrameSync {
    /// The camera changed since its last upload.
    pub dirty: bool,
    /// The image most recently handed over for upload.
    pub uploaded: Ghost<Seq<u8>>,
}

impl FrameSync {
    /// The GPU copy is current for a camera whose image is `image`, unless the
    /// camera is marked dirty.
    pub open spec fn tracks(&self, image: Seq<u8>) -> bool {
        !self.dirty ==> self.uploaded@ == image
    }

    /// A host that has uploaded nothing yet: the first frame uploads.
    pub fn new() -> (r: FrameSync)
        ensures
            r.dirty,
    {
        FrameSync { dirty: true, uploaded: Ghost(Seq::empty()) }
    }

    /// Records whether an event changed the camera.
    pub fn note_change(&mut self, changed: bool)
        ensures
            final(self).dirty == (old(self).dirty || changed),
            final(self).uploaded == old(self).uploaded,
    {
        self.dirty = self.dirty || changed;
    }

    /// Records a resize of the window, which always calls for an upload.
    pub fn note_resize(&mut self)
        ensures
            final(self).dirty,
            final(self).uploaded == old(self).uploaded,
    {
        self.dirty = true;
    }

    /// Decides the frame: the upload of the camera if it is dirty, and whether
    /// to draw. Afterwards the GPU copy is the camera's image.
    pub fn plan_frame(&mut self, camera: &CameraUniform, image_available: bool) -> (r: FramePlan)
        ensures
            r.draw == image_available,
            old(self).dirty ==> (r.upload matches Some(bytes) && bytes@ == camera.image()),
            !old(self).dirty ==> r.upload is None && *final(self) == *old(self),
            old(self).dirty ==> final(self).uploaded@ == camera.image(),
            !final(self).dirty,
            old(self).tracks(camera.image()) ==> final(self).uploaded@ == camera.image(),
    {
        if self.dirty {
            let bytes = camera.pack();
            self.dirty = false;
            self.uploaded = Ghost(bytes@);
            FramePlan { upload: Some(bytes), draw: image_available }
        } else {
            FramePlan { upload: None, draw: image_available }
        }
    }
}

} // verus!
