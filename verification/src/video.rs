//! The timeline: a frame rate, output dimensions and segments in playback
//! order, and the order in which its frames are produced.

use vstd::prelude::*;
use crate::ffmpeg::{
    is_command_line, is_ffmpeg_available, start_ffmpeg, submit_frame, wait_ffmpeg, FfmpegError,
};
use crate::text::join;
use crate::framebuffer::FrameBuffer;
use crate::segment::Segment;
use crate::time::Time;

verus! {

/// Why a video could not be rendered to the end.
#[derive(Debug)]
pub enum RenderError {
    /// The encoder could not be started or fed, or it did not succeed.
    FfmpegError(FfmpegError),
}

impl From<FfmpegError> for RenderError {
    fn from(err: FfmpegError) -> (converted: RenderError) {
        RenderError::FfmpegError(err)
    }
}

impl vstd::std_specs::convert::FromSpecImpl<FfmpegError> for RenderError {
    open spec fn obeys_from_spec() -> bool {
        true
    }

    open spec fn from_spec(err: FfmpegError) -> RenderError {
        RenderError::FfmpegError(err)
    }
}

impl RenderError {
    /// This error in words, where `detail` is what the underlying I/O error
    /// says of itself: that the encoder failed, and then the encoder's
    /// error in words.
    pub open spec fn worded(self, detail: Seq<char>) -> Seq<char> {
        match self {
            RenderError::FfmpegError(inner) => "FFMPEG Error: "@ + inner.worded(detail),
        }
    }

    /// What the underlying I/O error says of itself; nothing where there is
    /// none.
    pub fn detail(&self) -> (detail: String)
        ensures
            !(self matches RenderError::FfmpegError(FfmpegError::Unknown(_))) ==> detail@.len()
                == 0,
    {
        match self {
            RenderError::FfmpegError(inner) => inner.detail(),
        }
    }

    /// The error in words, with `detail` for the words of the underlying
    /// I/O error.
    pub fn message_with(&self, detail: &str) -> (text: String)
        ensures
            text@ == self.worded(detail@),
    {
        match self {
            RenderError::FfmpegError(inner) => {
                let told = inner.message_with(detail);
                let text = join("FFMPEG Error: ", told.as_str(), "");
                proof {
                    reveal_strlit("");
                }
                assert(text@ =~= self.worded(detail@));
                text
            },
        }
    }

    /// The error in words, the underlying I/O error speaking for itself.
    pub fn message(&self) -> (text: String)
        ensures
            exists|detail: Seq<char>| text@ == #[trigger] self.worded(detail),
    {
        let detail = self.detail();
        self.message_with(detail.as_str())
    }
}

/// The frame rate of a video that names none.
pub const FPS_DEFAULT: u32 = 24;

/// A video: segments played one after the other, without overlap, at one
/// frame rate and one output size.
pub struct Video {
    pub fps: u32,
    pub width: u32,
    pub height: u32,
    pub segments: Vec<Segment>,
}

/// The place of one output frame: the segment it belongs to, its number
/// within that segment, and how many frames of the video come before it.
#[derive(Debug, Clone, Copy, PartialEq, Eq, Structural)]
pub struct RenderCursor {
    pub segment: usize,
    pub frame: u32,
    pub done: u32,
}

/// How far a render has come.
#[derive(Debug, Clone, Copy, PartialEq, Eq, Structural)]
pub enum RenderState {
    /// Nothing has been done yet.
    Idle,
    /// The encoder is being tried out.
    Probing,
    /// The encoder is being started.
    Starting,
    /// The frame at the cursor is being composed and written to the encoder.
    Submitting(RenderCursor),
    /// Every frame has been written; the encoder is being awaited.
    Finishing,
    /// The render is over.
    Done,
}

/// What the caller of a render is to do next.
#[derive(Debug)]
pub enum RenderAction {
    /// Run the encoder once, to see whether it is there.
    Probe,
    /// Start the encoder with these arguments and its input piped.
    Start(Vec<String>),
    /// Compose the frame at the cursor and write its bytes to the encoder.
    Submit(RenderCursor),
    /// Close the encoder's input and wait for the encoder to end.
    Finish,
    /// Stop: the render ended as given.
    Stop(Result<(), RenderError>),
}

/// What the caller of a render reports back.
#[derive(Debug)]
pub enum RenderEvent {
    /// The render is to begin.
    Begin,
    /// The trial run of the encoder could be started, or not.
    Probed(Result<(), std::io::Error>),
    /// The encoder was started, or not.
    Started(Result<(), std::io::Error>),
    /// The frame was written to the encoder, or not.
    Submitted(Result<(), std::io::Error>),
    /// The encoder ended with this exit code, or could not be awaited.
    Ended(Result<Option<i32>, std::io::Error>),
}

impl RenderState {
    /// Whether `event` is the report that a render in this state waits for.
    pub open spec fn awaits(self, event: RenderEvent) -> bool {
        match (self, event) {
            (RenderState::Idle, RenderEvent::Begin) => true,
            (RenderState::Probing, RenderEvent::Probed(_)) => true,
            (RenderState::Starting, RenderEvent::Started(_)) => true,
            (RenderState::Submitting(_), RenderEvent::Submitted(_)) => true,
            (RenderState::Finishing, RenderEvent::Ended(_)) => true,
            _ => false,
        }
    }
}

impl Video {
    /// Every clip of every segment can be drawn.
    pub open spec fn wf(&self) -> bool {
        forall|i: int| 0 <= i < self.segments@.len() ==> (#[trigger] self.segments@[i]).wf()
    }

    /// The frames of the first `count` segments together, each length
    /// resolved by itself at the video's frame rate.
    pub open spec fn frames_before(&self, count: nat) -> nat
        decreases count,
    {
        if count == 0 {
            0
        } else {
            self.frames_before((count - 1) as nat) + self.segments@[count - 1].frames(self.fps)
        }
    }

    /// The frames of the whole video.
    pub open spec fn total_frames(&self) -> nat {
        self.frames_before(self.segments@.len())
    }

    /// Whether `cursor` is the place of a frame of this video.
    pub open spec fn has_frame(&self, cursor: RenderCursor) -> bool {
        &&& cursor.segment < self.segments@.len()
        &&& cursor.frame < self.segments@[cursor.segment as int].frames(self.fps)
        &&& cursor.done == self.frames_before(cursor.segment as nat) + cursor.frame
    }

    /// A video of the given output size with no segments, at the default
    /// frame rate.
    pub fn new(width: u32, height: u32) -> (video: Video)
        ensures
            video.fps == FPS_DEFAULT,
            video.width == width,
            video.height == height,
            video.segments@.len() == 0,
            video.wf(),
            video.total_frames() == 0,
    {
        Video { fps: FPS_DEFAULT, width: width, height: height, segments: Vec::new() }
    }

    /// The same video at `fps` frames per second.
    pub fn with_fps(self, fps: u32) -> (video: Video)
        ensures
            video.fps == fps,
            video.width == self.width,
            video.height == self.height,
            video.segments == self.segments,
    {
        let mut video = self;
        video.fps = fps;
        video
    }

    /// The number of frames of the whole video.
    pub fn get_total_frames(&self) -> (total: u32)
        requires
            self.total_frames() <= u32::MAX,
        ensures
            total == self.total_frames(),
    {
        let mut total: u32 = 0;
        let mut i: usize = 0;
        while i < self.segments.len()
            invariant
                i <= self.segments@.len(),
                total == self.frames_before(i as nat),
                self.total_frames() <= u32::MAX,
            decreases self.segments@.len() - i,
        {
            proof {
                self.lemma_frames_before_grows((i + 1) as nat, self.segments@.len());
            }
            total = total + self.segments[i].total_frames(self.fps);
            i += 1;
        }
        total
    }

    /// The number of frames of the whole video, if it can be counted in 32
    /// bits.
    pub fn checked_total_frames(&self) -> (total: Option<u32>)
        ensures
            total is Some <==> self.total_frames() <= u32::MAX,
            total is Some ==> total->0 == self.total_frames(),
    {
        let mut total: u32 = 0;
        let mut i: usize = 0;
        while i < self.segments.len()
            invariant
                i <= self.segments@.len(),
                total == self.frames_before(i as nat),
            decreases self.segments@.len() - i,
        {
            let frames: u32 = self.segments[i].total_frames(self.fps);
            if frames > u32::MAX - total {
                proof {
                    self.lemma_frames_before_grows((i + 1) as nat, self.segments@.len());
                }
                return None;
            }
            total = total + frames;
            i += 1;
        }
        Some(total)
    }

    /// A cleared frame buffer of the video's output size.
    pub fn new_framebuffer(&self) -> (buffer: FrameBuffer)
        requires
            self.width as nat * self.height as nat * 4 <= usize::MAX,
        ensures
            buffer.width == self.width,
            buffer.height == self.height,
            buffer.wf(),
            buffer@.is_clear(),
    {
        FrameBuffer::new(self.width, self.height)
    }

    /// Composites the frame at `cursor` into `framebuffer`: clears it, then
    /// lets every clip of the cursor's segment render itself, in list order,
    /// at the frame number counted from the start of that segment.
    pub fn compose_frame(&self, cursor: RenderCursor, framebuffer: &mut FrameBuffer)
        requires
            self.wf(),
            cursor.segment < self.segments@.len(),
            old(framebuffer).wf(),
        ensures
            final(framebuffer).wf(),
            final(framebuffer)@ == self.segments@[cursor.segment as int].composited(
                self.segments@[cursor.segment as int].clips@.len(),
                cursor.frame,
                self.fps,
                old(framebuffer)@.cleared(),
            ),
            final(framebuffer)@.width == old(framebuffer)@.width,
            final(framebuffer)@.height == old(framebuffer)@.height,
    {
        framebuffer.fill(0);
        let segment = &self.segments[cursor.segment];
        let mut i: usize = 0;
        while i < segment.clips.len()
            invariant
                i <= segment.clips@.len(),
                segment.wf(),
                framebuffer.wf(),
                framebuffer@ == segment.composited(
                    i as nat,
                    cursor.frame,
                    self.fps,
                    old(framebuffer)@.cleared(),
                ),
                framebuffer@.width == old(framebuffer)@.width,
                framebuffer@.height == old(framebuffer)@.height,
            decreases segment.clips@.len() - i,
        {
            segment.clips[i].render_frame(self.fps, Time::Frame(cursor.frame), framebuffer);
            i += 1;
        }
    }

    /// Whether a render of this video to `filename`, by the encoder at
    /// `ffmpeg_path`, goes from `state` to `next` with the order `action`
    /// when `event` is reported.
    ///
    /// The encoder is tried out before anything else, and a failed trial
    /// ends the render before any frame is made. Then the encoder is
    /// started with the command line of this video; then every frame is
    /// submitted, in order, the first one first and after each the one that
    /// follows it; after the last the encoder's input is closed and the
    /// encoder awaited. Any failure on the way ends the render with its
    /// error, at once; nothing is tried again.
    pub open spec fn steps(
        &self,
        state: RenderState,
        event: RenderEvent,
        filename: Seq<char>,
        ffmpeg_path: Seq<char>,
        next: RenderState,
        action: RenderAction,
    ) -> bool {
        match (state, event) {
            (RenderState::Idle, RenderEvent::Begin) => next == RenderState::Probing
                && action == RenderAction::Probe,
            (RenderState::Probing, RenderEvent::Probed(Ok(_))) => next == RenderState::Starting
                && (action matches RenderAction::Start(args) && is_command_line(
                args@,
                *self,
                filename,
            )),
            (RenderState::Probing, RenderEvent::Probed(Err(error))) => next == RenderState::Done
                && (action matches RenderAction::Stop(Err(RenderError::FfmpegError(failure)))
                && match failure {
                FfmpegError::NotFound(path) => path@ == ffmpeg_path,
                FfmpegError::Unknown(cause) => cause == error,
                FfmpegError::Failed(_) => false,
            }),
            (RenderState::Starting, RenderEvent::Started(Ok(_)))
            | (RenderState::Submitting(_), RenderEvent::Submitted(Ok(_))) => {
                let done: nat = match state {
                    RenderState::Submitting(cursor) => (cursor.done + 1) as nat,
                    _ => 0,
                };
                if done == self.total_frames() {
                    next == RenderState::Finishing && action == RenderAction::Finish
                } else {
                    next matches RenderState::Submitting(cursor) && action
                        == RenderAction::Submit(cursor) && self.has_frame(cursor) && cursor.done
                        == done
                }
            },
            (RenderState::Starting, RenderEvent::Started(Err(error)))
            | (RenderState::Submitting(_), RenderEvent::Submitted(Err(error))) => next
                == RenderState::Done && action == RenderAction::Stop(
                Err(RenderError::FfmpegError(FfmpegError::Unknown(error))),
            ),
            (RenderState::Finishing, RenderEvent::Ended(ended)) => next == RenderState::Done
                && action == RenderAction::Stop(
                match ended {
                    Ok(Some(0i32)) => Ok(()),
                    Ok(code) => Err(RenderError::FfmpegError(FfmpegError::Failed(code))),
                    Err(error) => Err(RenderError::FfmpegError(FfmpegError::Unknown(error))),
                },
            ),
            _ => false,
        }
    }

    /// One step of a render of this video to `filename`, by the encoder at
    /// `ffmpeg_path`: takes what the caller reports and says what to do
    /// next. The caller begins in `RenderState::Idle` with
    /// `RenderEvent::Begin`, does what it is told, reports how that went,
    /// and stops when told to. A report that the state does not wait for
    /// gets no answer.
    pub fn render_step(
        &self,
        state: RenderState,
        event: RenderEvent,
        filename: &str,
        ffmpeg_path: &str,
    ) -> (step: Option<(RenderState, RenderAction)>)
        requires
            self.total_frames() <= u32::MAX,
            state matches RenderState::Submitting(cursor) ==> self.has_frame(cursor),
        ensures
            step is Some <==> state.awaits(event),
            step matches Some(taken) ==> self.steps(
                state,
                event,
                filename@,
                ffmpeg_path@,
                taken.0,
                taken.1,
            ),
    {
        let taken = match (state, event) {
            (RenderState::Idle, RenderEvent::Begin) => (RenderState::Probing, RenderAction::Probe),
            (RenderState::Probing, RenderEvent::Probed(probe)) => {
                match is_ffmpeg_available(ffmpeg_path, probe) {
                    Ok(_) => (
                        RenderState::Starting,
                        RenderAction::Start(start_ffmpeg(self, filename)),
                    ),
                    Err(failure) => (
                        RenderState::Done,
                        RenderAction::Stop(Err(RenderError::FfmpegError(failure))),
                    ),
                }
            },
            (RenderState::Starting, RenderEvent::Started(started)) => {
                match submit_frame(started) {
                    Ok(_) => self.submit_or_finish(self.first_frame()),
                    Err(failure) => (
                        RenderState::Done,
                        RenderAction::Stop(Err(RenderError::FfmpegError(failure))),
                    ),
                }
            },
            (RenderState::Submitting(cursor), RenderEvent::Submitted(written)) => {
                match submit_frame(written) {
                    Ok(_) => self.submit_or_finish(self.next_frame(cursor)),
                    Err(failure) => (
                        RenderState::Done,
                        RenderAction::Stop(Err(RenderError::FfmpegError(failure))),
                    ),
                }
            },
            (RenderState::Finishing, RenderEvent::Ended(ended)) => {
                match wait_ffmpeg(ended) {
                    Ok(_) => (RenderState::Done, RenderAction::Stop(Ok(()))),
                    Err(failure) => (
                        RenderState::Done,
                        RenderAction::Stop(Err(RenderError::FfmpegError(failure))),
                    ),
                }
            },
            _ => {
                return None;
            },
        };
        Some(taken)
    }

    /// The order to submit the frame at `cursor`, or to finish if there is
    /// none left.
    fn submit_or_finish(&self, cursor: Option<RenderCursor>) -> (step: (RenderState, RenderAction))
        ensures
            step == match cursor {
                Some(at) => (RenderState::Submitting(at), RenderAction::Submit(at)),
                None => (RenderState::Finishing, RenderAction::Finish),
            },
    {
        match cursor {
            Some(at) => (RenderState::Submitting(at), RenderAction::Submit(at)),
            None => (RenderState::Finishing, RenderAction::Finish),
        }
    }

    /// The place of the video's first frame, or nothing if it has no frame.
    pub fn first_frame(&self) -> (first: Option<RenderCursor>)
        ensures
            first is None <==> self.total_frames() == 0,
            first matches Some(cursor) ==> self.has_frame(cursor) && cursor.done == 0,
    {
        let first = self.frame_from(0, 0);
        proof {
            if let Some(cursor) = first {
                self.lemma_cursor_within_total(cursor);
            }
        }
        first
    }

    /// The place of the frame that follows the one at `cursor`, or nothing
    /// if that was the last: then as many frames came before it as the video
    /// has, less one.
    pub fn next_frame(&self, cursor: RenderCursor) -> (next: Option<RenderCursor>)
        requires
            self.has_frame(cursor),
            self.total_frames() <= u32::MAX,
        ensures
            next is None <==> cursor.done + 1 == self.total_frames(),
            next matches Some(following) ==> self.has_frame(following) && following.done
                == cursor.done + 1,
    {
        proof {
            self.lemma_frames_before_grows((cursor.segment + 1) as nat, self.segments@.len());
        }
        let count: usize = self.segments.len();
        let frames: u32 = self.segments[cursor.segment].total_frames(self.fps);
        let next = if cursor.frame + 1 < frames {
            Some(
                RenderCursor {
                    segment: cursor.segment,
                    frame: cursor.frame + 1,
                    done: cursor.done + 1,
                },
            )
        } else {
            assert(cursor.segment < count);
            self.frame_from(cursor.segment + 1, cursor.done + 1)
        };
        proof {
            if let Some(following) = next {
                self.lemma_cursor_within_total(following);
            }
        }
        next
    }

    /// The first frame at or after the start of segment `from`, before which
    /// `done` frames lie: segments without a frame are passed over.
    fn frame_from(&self, from: usize, done: u32) -> (found: Option<RenderCursor>)
        requires
            from <= self.segments@.len(),
            done == self.frames_before(from as nat),
        ensures
            match found {
                Some(cursor) => self.has_frame(cursor) && cursor.done == done,
                None => done == self.total_frames(),
            },
    {
        let mut i: usize = from;
        while i < self.segments.len()
            invariant
                from <= i <= self.segments@.len(),
                done == self.frames_before(i as nat),
            decreases self.segments@.len() - i,
        {
            let frames: u32 = self.segments[i].total_frames(self.fps);
            if frames > 0 {
                return Some(RenderCursor { segment: i, frame: 0, done });
            }
            i += 1;
        }
        None
    }

    /// The frames of the first segments never outnumber the frames of more
    /// of them.
    pub proof fn lemma_frames_before_grows(&self, fewer: nat, more: nat)
        requires
            fewer <= more,
        ensures
            self.frames_before(fewer) <= self.frames_before(more),
        decreases more,
    {
        if fewer < more {
            self.lemma_frames_before_grows(fewer, (more - 1) as nat);
        }
    }

    /// No two frames of the video have the same number of frames before
    /// them: counting says which frame is meant.
    pub proof fn lemma_cursor_unique(&self, one: RenderCursor, other: RenderCursor)
        requires
            self.has_frame(one),
            self.has_frame(other),
            one.done == other.done,
        ensures
            one == other,
    {
        if one.segment < other.segment {
            self.lemma_frames_before_grows((one.segment + 1) as nat, other.segment as nat);
        } else if other.segment < one.segment {
            self.lemma_frames_before_grows((other.segment + 1) as nat, one.segment as nat);
        }
    }

    /// Every frame of the video has fewer frames before it than the video
    /// has in all: counting one frame after the other from the first, the
    /// last one is reached exactly when the count is the total.
    pub proof fn lemma_cursor_within_total(&self, cursor: RenderCursor)
        requires
            self.has_frame(cursor),
        ensures
            cursor.done < self.total_frames(),
    {
        self.lemma_frames_before_grows((cursor.segment + 1) as nat, self.segments@.len());
    }
}

} // verus!
