use editbay::clip::image_clip::ImageClip;
use editbay::clip::transform::{ClipTransform, Rect};
use editbay::ffmpeg::FfmpegError;
use editbay::framebuffer::FrameBuffer;
use editbay::segment::Segment;
use editbay::time::{Duration, Seconds, Time};
use editbay::video::{RenderAction, RenderCursor, RenderError, RenderEvent, RenderState, Video};
use std::io::{Error, ErrorKind};

fn two_seconds_video() -> Video {
    let mut video = Video::new(64, 64).with_fps(10);
    let mut segment = Segment::new();
    segment.length = Time::Seconds(Seconds::whole(2));
    let transform = ClipTransform {
        duration: Duration {
            start: Time::Seconds(Seconds::whole(0)),
            end: Time::Seconds(Seconds::whole(2)),
        },
        bounds: Rect::from_dimensions(0, 0, 64, 64),
    };
    let source = FrameBuffer::from_raw(1, 1, vec![0, 255, 0, 255]).unwrap();
    segment.clips.push(Box::new(ImageClip::new(transform, &source)));
    video.segments.push(segment);
    video
}

fn frames_video(lengths: &[u32]) -> Video {
    let mut video = Video::new(2, 2);
    for length in lengths {
        let mut segment = Segment::new();
        segment.length = Time::Frame(*length);
        video.segments.push(segment);
    }
    video
}

fn broken(kind: ErrorKind) -> Error {
    Error::new(kind, "broken")
}

#[test]
fn render_begins_by_probing() {
    let video = frames_video(&[1]);
    let (state, action) = video.render_step(RenderState::Idle, RenderEvent::Begin, "out.mp4", "ffmpeg").unwrap();
    assert_eq!(state, RenderState::Probing);
    assert!(matches!(action, RenderAction::Probe));
}

#[test]
fn missing_encoder_ends_the_render_before_any_frame() {
    let video = frames_video(&[1]);
    let probed = RenderEvent::Probed(Err(broken(ErrorKind::NotFound)));
    let (state, action) = video.render_step(RenderState::Probing, probed, "out.mp4", "/bin/ffmpeg").unwrap();
    assert_eq!(state, RenderState::Done);
    match action {
        RenderAction::Stop(Err(RenderError::FfmpegError(FfmpegError::NotFound(path)))) => {
            assert_eq!(path, "/bin/ffmpeg")
        }
        _ => panic!("expected the render to stop on a missing encoder"),
    }
}

#[test]
fn unrunnable_encoder_ends_the_render_with_the_io_error() {
    let video = frames_video(&[1]);
    let probed = RenderEvent::Probed(Err(broken(ErrorKind::PermissionDenied)));
    let (state, action) = video.render_step(RenderState::Probing, probed, "out.mp4", "ffmpeg").unwrap();
    assert_eq!(state, RenderState::Done);
    assert!(matches!(
        action,
        RenderAction::Stop(Err(RenderError::FfmpegError(FfmpegError::Unknown(e))))
            if e.kind() == ErrorKind::PermissionDenied
    ));
}

#[test]
fn available_encoder_is_started_with_the_videos_parameters() {
    let video = Video::new(640, 480).with_fps(30);
    let (state, action) =
        video.render_step(RenderState::Probing, RenderEvent::Probed(Ok(())), "out.mkv", "ffmpeg").unwrap();
    assert_eq!(state, RenderState::Starting);
    match action {
        RenderAction::Start(args) => assert_eq!(
            args,
            vec![
                "-y", "-f", "rawvideo", "-pix_fmt", "rgba", "-s", "640x480", "-r", "30", "-i",
                "-", "-r", "30", "out.mkv"
            ]
        ),
        _ => panic!("expected the encoder to be started"),
    }
}

#[test]
fn failed_start_ends_the_render() {
    let video = frames_video(&[1]);
    let started = RenderEvent::Started(Err(broken(ErrorKind::Other)));
    let (state, action) = video.render_step(RenderState::Starting, started, "out.mp4", "ffmpeg").unwrap();
    assert_eq!(state, RenderState::Done);
    assert!(matches!(
        action,
        RenderAction::Stop(Err(RenderError::FfmpegError(FfmpegError::Unknown(_))))
    ));
}

#[test]
fn started_encoder_gets_the_first_frame() {
    let video = frames_video(&[0, 3]);
    let (state, action) =
        video.render_step(RenderState::Starting, RenderEvent::Started(Ok(())), "out.mp4", "ffmpeg").unwrap();
    let first = RenderCursor { segment: 1, frame: 0, done: 0 };
    assert_eq!(state, RenderState::Submitting(first));
    assert!(matches!(action, RenderAction::Submit(at) if at == first));
}

#[test]
fn video_without_frames_goes_straight_to_the_end() {
    let video = frames_video(&[0, 0]);
    let (state, action) =
        video.render_step(RenderState::Starting, RenderEvent::Started(Ok(())), "out.mp4", "ffmpeg").unwrap();
    assert_eq!(state, RenderState::Finishing);
    assert!(matches!(action, RenderAction::Finish));
}

#[test]
fn failed_write_ends_the_render_at_once() {
    let video = frames_video(&[5]);
    let at = RenderCursor { segment: 0, frame: 2, done: 2 };
    let written = RenderEvent::Submitted(Err(broken(ErrorKind::BrokenPipe)));
    let (state, action) = video.render_step(RenderState::Submitting(at), written, "out.mp4", "ffmpeg").unwrap();
    assert_eq!(state, RenderState::Done);
    assert!(matches!(
        action,
        RenderAction::Stop(Err(RenderError::FfmpegError(FfmpegError::Unknown(e))))
            if e.kind() == ErrorKind::BrokenPipe
    ));
}

#[test]
fn last_frame_is_followed_by_the_end_of_the_stream() {
    let video = frames_video(&[2, 1]);
    let last = RenderCursor { segment: 1, frame: 0, done: 2 };
    let (state, action) = video.render_step(
        RenderState::Submitting(last),
        RenderEvent::Submitted(Ok(())),
        "out.mp4",
        "ffmpeg",
    ).unwrap();
    assert_eq!(state, RenderState::Finishing);
    assert!(matches!(action, RenderAction::Finish));
}

#[test]
fn encoder_exit_decides_the_outcome() {
    let video = frames_video(&[1]);
    let (state, action) =
        video.render_step(RenderState::Finishing, RenderEvent::Ended(Ok(Some(0))), "o", "f").unwrap();
    assert_eq!(state, RenderState::Done);
    assert!(matches!(action, RenderAction::Stop(Ok(()))));
    let (_, action) =
        video.render_step(RenderState::Finishing, RenderEvent::Ended(Ok(Some(1))), "o", "f").unwrap();
    assert!(matches!(
        action,
        RenderAction::Stop(Err(RenderError::FfmpegError(FfmpegError::Failed(Some(1)))))
    ));
    let (_, action) = video.render_step(RenderState::Finishing, RenderEvent::Ended(Ok(None)), "o", "f").unwrap();
    assert!(matches!(
        action,
        RenderAction::Stop(Err(RenderError::FfmpegError(FfmpegError::Failed(None))))
    ));
    let ended = RenderEvent::Ended(Err(broken(ErrorKind::Other)));
    let (_, action) = video.render_step(RenderState::Finishing, ended, "o", "f").unwrap();
    assert!(matches!(
        action,
        RenderAction::Stop(Err(RenderError::FfmpegError(FfmpegError::Unknown(_))))
    ));
}

#[test]
fn report_out_of_turn_gets_no_answer() {
    let video = frames_video(&[1]);
    let at = RenderCursor { segment: 0, frame: 0, done: 0 };
    assert!(video.render_step(RenderState::Idle, RenderEvent::Probed(Ok(())), "o", "f").is_none());
    assert!(video.render_step(RenderState::Probing, RenderEvent::Begin, "o", "f").is_none());
    assert!(video.render_step(RenderState::Starting, RenderEvent::Submitted(Ok(())), "o", "f").is_none());
    assert!(video.render_step(RenderState::Submitting(at), RenderEvent::Started(Ok(())), "o", "f").is_none());
    assert!(video.render_step(RenderState::Finishing, RenderEvent::Submitted(Ok(())), "o", "f").is_none());
    assert!(video.render_step(RenderState::Done, RenderEvent::Begin, "o", "f").is_none());
    assert!(video.render_step(RenderState::Done, RenderEvent::Ended(Ok(Some(0))), "o", "f").is_none());
}

#[test]
fn whole_render_submits_twenty_frames_then_ends_the_stream() {
    let video = two_seconds_video();
    let mut frame = video.new_framebuffer();
    let mut submitted: Vec<Vec<u8>> = Vec::new();
    let mut orders: Vec<&str> = Vec::new();
    let mut state = RenderState::Idle;
    let mut event = RenderEvent::Begin;
    let outcome = loop {
        let (next, action) = video.render_step(state, event, "video.mp4", "ffmpeg").unwrap();
        state = next;
        event = match action {
            RenderAction::Probe => {
                orders.push("probe");
                RenderEvent::Probed(Ok(()))
            }
            RenderAction::Start(_) => {
                orders.push("start");
                RenderEvent::Started(Ok(()))
            }
            RenderAction::Submit(at) => {
                assert_eq!(at.done as usize, submitted.len());
                assert!(!orders.contains(&"finish"));
                video.compose_frame(at, &mut frame);
                submitted.push(frame.as_bytes().to_vec());
                RenderEvent::Submitted(Ok(()))
            }
            RenderAction::Finish => {
                orders.push("finish");
                RenderEvent::Ended(Ok(Some(0)))
            }
            RenderAction::Stop(outcome) => break outcome,
        };
    };
    assert!(outcome.is_ok());
    assert_eq!(state, RenderState::Done);
    assert_eq!(orders, vec!["probe", "start", "finish"]);
    assert_eq!(submitted.len(), 20);
    for bytes in &submitted {
        assert_eq!(bytes.len(), 64 * 64 * 4);
        assert_eq!(bytes[0..4], [0, 255, 0, 255]);
    }
}
