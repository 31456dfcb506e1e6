//! The time model: instants given as frame numbers or as offsets in seconds,
//! and closed intervals of them.

use vstd::prelude::*;

verus! {

/// Microseconds in one second.
pub const MICROS_PER_SECOND: u64 = 1_000_000;

/// A non-negative offset in seconds, held exactly as a count of microseconds.
#[derive(Debug, Clone, Copy, PartialEq, Eq, Structural)]
pub struct Seconds {
    pub micros: u64,
}

impl Seconds {
    /// An offset of `seconds` whole seconds.
    pub fn whole(seconds: u32) -> (r: Seconds)
        ensures
            r.micros == seconds as nat * 1_000_000,
    {
        let wide: u64 = seconds as u64;
        Seconds { micros: wide * MICROS_PER_SECOND }
    }

    /// An offset of `micros` microseconds.
    pub fn from_micros(micros: u64) -> (r: Seconds)
        ensures
            r.micros == micros,
    {
        Seconds { micros }
    }
}

/// The number of whole frames that fit in `micros` microseconds at `fps`
/// frames per second: the product of seconds and rate, rounded down.
pub open spec fn whole_frames(micros: nat, fps: nat) -> nat {
    (micros * fps) / 1_000_000
}

/// An instant: either a frame number, or an offset in seconds that becomes a
/// frame number only once a frame rate is known.
#[derive(Debug, Clone, Copy, PartialEq, Eq, Structural)]
pub enum Time {
    Frame(u32),
    Seconds(Seconds),
}

impl Time {
    /// The frame this instant falls on at `fps` frames per second. A frame
    /// number stands for itself; seconds are multiplied by the rate and
    /// rounded down, and what exceeds the largest frame number stays there.
    pub open spec fn frame_at(self, fps: u32) -> nat {
        match self {
            Time::Frame(frame) => frame as nat,
            Time::Seconds(offset) => {
                let frames = whole_frames(offset.micros as nat, fps as nat);
                if frames <= u32::MAX { frames } else { u32::MAX as nat }
            },
        }
    }

    /// Resolves this instant to a frame number at `fps` frames per second.
    pub fn to_frame_num(&self, fps: u32) -> (frame: u32)
        ensures
            frame == self.frame_at(fps),
    {
        match self {
            Time::Frame(frame) => *frame,
            Time::Seconds(offset) => {
                let micros: u128 = offset.micros as u128;
                let rate: u128 = fps as u128;
                assert(micros * rate <= 0xffff_ffff_ffff_ffff * 0xffff_ffff) by (nonlinear_arith)
                    requires
                        micros <= 0xffff_ffff_ffff_ffff,
                        rate <= 0xffff_ffff,
                ;
                let frames: u128 = (micros * rate) / 1_000_000;
                if frames <= 0xffff_ffff {
                    frames as u32
                } else {
                    u32::MAX
                }
            },
        }
    }
}

/// A closed interval of instants: both ends belong to it.
#[derive(Debug, Clone, Copy, PartialEq, Eq, Structural)]
pub struct Duration {
    pub start: Time,
    pub end: Time,
}

impl Duration {
    /// Whether `time` lies in the interval once all three instants are
    /// resolved at `fps` frames per second.
    pub open spec fn covers(self, time: Time, fps: u32) -> bool {
        self.start.frame_at(fps) <= time.frame_at(fps) <= self.end.frame_at(fps)
    }

    /// Tests whether `time` lies in the interval at `fps` frames per second.
    pub fn contains(&self, time: Time, fps: u32) -> (inside: bool)
        ensures
            inside == self.covers(time, fps),
    {
        let start_frame: u32 = self.start.to_frame_num(fps);
        let end_frame: u32 = self.end.to_frame_num(fps);
        let frame: u32 = time.to_frame_num(fps);
        start_frame <= frame && frame <= end_frame
    }
}

/// An interval that starts and ends at the same instant contains that
/// instant, at every frame rate.
pub proof fn lemma_duration_reflexive(t: Time, fps: u32)
    ensures
        (Duration { start: t, end: t }).covers(t, fps),
{
}

/// Membership is exactly lying between the resolved ends: both ends are inside,
/// the frame just before the start and the frame just after the end are not.
pub proof fn lemma_duration_closed(d: Duration, x: Time, fps: u32)
    ensures
        d.covers(x, fps) <==> (d.start.frame_at(fps) <= x.frame_at(fps) && x.frame_at(fps)
            <= d.end.frame_at(fps)),
        d.start.frame_at(fps) <= d.end.frame_at(fps) ==> d.covers(d.start, fps) && d.covers(
            d.end,
            fps,
        ),
        x.frame_at(fps) + 1 == d.start.frame_at(fps) ==> !d.covers(x, fps),
        x.frame_at(fps) == d.end.frame_at(fps) + 1 ==> !d.covers(x, fps),
{
}

/// An interval whose start resolves after its end contains no instant.
pub proof fn lemma_reversed_duration_empty(d: Duration, x: Time, fps: u32)
    requires
        d.start.frame_at(fps) > d.end.frame_at(fps),
    ensures
        !d.covers(x, fps),
{
}

/// A frame number resolves to itself, whatever the rate.
pub proof fn lemma_frame_resolves_to_itself(frame: u32, fps: u32)
    ensures
        Time::Frame(frame).frame_at(fps) == frame,
{
}

/// An offset in seconds resolves to the product of seconds and rate, rounded
/// down, whenever that product is a frame number at all.
pub proof fn lemma_seconds_resolve_to_floor(offset: Seconds, fps: u32)
    requires
        (offset.micros as nat * fps as nat) / 1_000_000 <= u32::MAX,
    ensures
        Time::Seconds(offset).frame_at(fps) == (offset.micros as nat * fps as nat) / 1_000_000,
{
}

} // verus!
