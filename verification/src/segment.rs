//! A stretch of the timeline with the clips that play in it.

use vstd::prelude::*;
use crate::clip::{rendered, Clip};
use crate::framebuffer::Frame;
use crate::time::{Seconds, Time};

verus! {

/// Clips in drawing order and the length of the stretch they play in. The
/// clips' intervals count from the start of the segment.
pub struct Segment {
    pub length: Time,
    pub clips: Vec<Box<dyn Clip>>,
}

impl Segment {
    /// Every clip of the segment can be drawn.
    pub open spec fn wf(&self) -> bool {
        forall|i: int| 0 <= i < self.clips@.len() ==> (#[trigger] self.clips@[i]).wf()
    }

    /// How many frames the segment lasts at `fps` frames per second.
    pub open spec fn frames(&self, fps: u32) -> nat {
        self.length.frame_at(fps)
    }

    /// The frame `canvas` after the first `count` clips have rendered the
    /// segment's frame number `frame` into it, one after the other in list
    /// order, each onto what the earlier ones left.
    pub open spec fn composited(&self, count: nat, frame: u32, fps: u32, canvas: Frame) -> Frame
        decreases count,
    {
        if count == 0 {
            canvas
        } else {
            rendered(
                &*self.clips@[count - 1],
                Time::Frame(frame),
                fps,
                self.composited((count - 1) as nat, frame, fps, canvas),
            )
        }
    }

    /// An empty segment of no length.
    pub fn new() -> (segment: Segment)
        ensures
            segment.length == Time::Seconds(Seconds { micros: 0 }),
            segment.clips@.len() == 0,
            segment.wf(),
    {
        Segment { length: Time::Seconds(Seconds { micros: 0 }), clips: Vec::new() }
    }

    /// How many frames the segment lasts at `fps` frames per second.
    pub fn total_frames(&self, fps: u32) -> (frames: u32)
        ensures
            frames == self.frames(fps),
    {
        self.length.to_frame_num(fps)
    }
}

/// Clips are drawn in list order, each onto what the earlier ones left: what
/// the first `count` clips make of a frame is what the last of them makes of
/// the work of those before it. Where two active clips overlap, the later one
/// therefore lies on top.
pub proof fn lemma_later_clip_on_top(
    segment: &Segment,
    count: nat,
    frame: u32,
    fps: u32,
    canvas: Frame,
)
    requires
        0 < count <= segment.clips@.len(),
    ensures
        segment.composited(count, frame, fps, canvas) == rendered(
            &*segment.clips@[count - 1],
            Time::Frame(frame),
            fps,
            segment.composited((count - 1) as nat, frame, fps, canvas),
        ),
        segment.clips@[count - 1].placement().active_at(Time::Frame(frame), fps)
            ==> segment.composited(count, frame, fps, canvas) == segment.clips@[count
            - 1].drawn(segment.composited((count - 1) as nat, frame, fps, canvas)),
{
}

/// A segment in which no clip is active at a frame leaves that frame as it
/// was.
pub proof fn lemma_no_active_clip_no_change(
    segment: &Segment,
    count: nat,
    frame: u32,
    fps: u32,
    canvas: Frame,
)
    requires
        count <= segment.clips@.len(),
        forall|i: int|
            0 <= i < count ==> !(#[trigger] segment.clips@[i]).placement().active_at(
                Time::Frame(frame),
                fps,
            ),
    ensures
        segment.composited(count, frame, fps, canvas) == canvas,
    decreases count,
{
    if count > 0 {
        lemma_no_active_clip_no_change(segment, (count - 1) as nat, frame, fps, canvas);
    }
}

} // verus!
