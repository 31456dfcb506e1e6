//! Clips: what can draw itself into a frame.

pub mod image_clip;
pub mod transform;

use vstd::prelude::*;
use crate::clip::transform::ClipTransform;
use crate::framebuffer::{Frame, FrameBuffer};
use crate::time::Time;

verus! {

/// Something that draws itself into a frame buffer, at the place and in the
/// interval that its transform gives. A clip holds no state that changes from
/// frame to frame.
pub trait Clip {
    /// What must hold of the clip for it to be drawn.
    spec fn wf(&self) -> bool;

    /// Where the clip is drawn and when it is active.
    spec fn placement(&self) -> ClipTransform;

    /// The frame `before` after the clip has drawn itself into it.
    spec fn drawn(&self, before: Frame) -> Frame;

    /// Draws the clip at `time`, at `fps` frames per second, into `framebuffer`, which need not be
    /// cleared. Outside its active interval the clip leaves the buffer as it
    /// is; inside it, the clip changes no pixel outside its rectangle.
    fn render_frame(&self, fps: u32, time: Time, framebuffer: &mut FrameBuffer)
        requires
            self.wf(),
            old(framebuffer).wf(),
        ensures
            final(framebuffer).wf(),
            final(framebuffer)@ == if self.placement().active_at(time, fps) {
                self.drawn(old(framebuffer)@)
            } else {
                old(framebuffer)@
            },
            final(framebuffer)@.width == old(framebuffer)@.width,
            final(framebuffer)@.height == old(framebuffer)@.height,
            untouched_outside(self.placement(), old(framebuffer)@, final(framebuffer)@),
    ;
}

/// The frame `before` after `clip` was asked to render itself at `time`:
/// drawn into if the clip is active then, unchanged if it is not.
pub open spec fn rendered<C: Clip + ?Sized>(clip: &C, time: Time, fps: u32, before: Frame) -> Frame {
    if clip.placement().active_at(time, fps) {
        clip.drawn(before)
    } else {
        before
    }
}

/// `after` has the bytes of `before` in every pixel outside the rectangle of
/// `placement`, and as many bytes in all.
pub open spec fn untouched_outside(placement: ClipTransform, before: Frame, after: Frame) -> bool {
    &&& after.bytes.len() == before.bytes.len()
    &&& forall|i: int|
        0 <= i < before.bytes.len() && !placement.bounds.covers(
            before.column_of(i),
            before.row_of(i),
        ) ==> #[trigger] after.bytes[i] == before.bytes[i]
}

/// Asking a clip to render outside its active interval changes nothing, so
/// asking twice changes nothing twice.
pub proof fn lemma_inactive_render_is_noop<C: Clip + ?Sized>(
    clip: &C,
    time: Time,
    fps: u32,
    before: Frame,
)
    requires
        !clip.placement().active_at(time, fps),
    ensures
        rendered(clip, time, fps, before) == before,
        rendered(clip, time, fps, rendered(clip, time, fps, before)) == before,
{
}

} // verus!
