use editbay::clip::image_clip::ImageClip;
use editbay::clip::transform::{ClipTransform, Rect};
use editbay::ffmpeg::FfmpegError;
use editbay::framebuffer::FrameBuffer;
use editbay::segment::Segment;
use editbay::time::{Duration, Seconds, Time};
use editbay::video::{RenderCursor, RenderError, Video, FPS_DEFAULT};

fn block(x: u32, y: u32, side: u32, colour: [u8; 4], from: u32, to: u32) -> Box<ImageClip> {
    let transform = ClipTransform {
        duration: Duration { start: Time::Frame(from), end: Time::Frame(to) },
        bounds: Rect::from_dimensions(x, y, side, side),
    };
    let source = FrameBuffer::from_raw(1, 1, colour.to_vec()).unwrap();
    Box::new(ImageClip::new(transform, &source))
}

fn segment_of(length: Time) -> Segment {
    let mut segment = Segment::new();
    segment.length = length;
    segment
}

const RED: [u8; 4] = [255, 0, 0, 255];
const BLUE: [u8; 4] = [0, 0, 255, 255];
const CLEAR: [u8; 4] = [0, 0, 0, 0];

#[test]
fn new_video_has_default_rate_and_no_segments() {
    let video = Video::new(1080, 720);
    assert_eq!(FPS_DEFAULT, 24);
    assert_eq!(video.fps, 24);
    assert_eq!(video.width, 1080);
    assert_eq!(video.height, 720);
    assert!(video.segments.is_empty());
    assert_eq!(video.get_total_frames(), 0);
    assert_eq!(video.first_frame(), None);
}

#[test]
fn with_fps_changes_only_the_rate() {
    let mut video = Video::new(10, 20);
    video.segments.push(segment_of(Time::Frame(3)));
    let video = video.with_fps(32);
    assert_eq!(video.fps, 32);
    assert_eq!(video.width, 10);
    assert_eq!(video.height, 20);
    assert_eq!(video.segments.len(), 1);
}

#[test]
fn new_segment_is_empty() {
    let segment = Segment::new();
    assert_eq!(segment.length, Time::Seconds(Seconds::from_micros(0)));
    assert!(segment.clips.is_empty());
    assert_eq!(segment.total_frames(24), 0);
}

#[test]
fn total_frames_is_the_sum_of_the_segments() {
    let mut video = Video::new(4, 4).with_fps(24);
    video.segments.push(segment_of(Time::Seconds(Seconds::whole(10))));
    video.segments.push(segment_of(Time::Seconds(Seconds::whole(5))));
    assert_eq!(video.segments[0].total_frames(24), 240);
    assert_eq!(video.segments[1].total_frames(24), 120);
    assert_eq!(video.get_total_frames(), 360);
    assert_eq!(video.checked_total_frames(), Some(360));
}

#[test]
fn segments_round_down_one_by_one() {
    // two segments of 0.5 s at 3 frames per second: one frame each, not three in all
    let mut video = Video::new(4, 4).with_fps(3);
    video.segments.push(segment_of(Time::Seconds(Seconds::from_micros(500_000))));
    video.segments.push(segment_of(Time::Seconds(Seconds::from_micros(500_000))));
    assert_eq!(video.get_total_frames(), 2);
}

#[test]
fn total_frames_too_many_to_count() {
    let mut video = Video::new(4, 4);
    video.segments.push(segment_of(Time::Frame(u32::MAX)));
    assert_eq!(video.checked_total_frames(), Some(u32::MAX));
    video.segments.push(segment_of(Time::Frame(1)));
    assert_eq!(video.checked_total_frames(), None);
}

#[test]
fn later_clip_lies_on_top() {
    let mut video = Video::new(5, 5).with_fps(10);
    let mut segment = segment_of(Time::Frame(4));
    segment.clips.push(block(0, 0, 3, RED, 0, 3));
    segment.clips.push(block(1, 1, 3, BLUE, 0, 3));
    video.segments.push(segment);
    let mut frame = video.new_framebuffer();
    for number in 0..4u32 {
        frame.fill(77);
        video.compose_frame(RenderCursor { segment: 0, frame: number, done: number }, &mut frame);
        assert_eq!(frame.get_pixel(0, 0), RED);
        assert_eq!(frame.get_pixel(1, 1), BLUE);
        assert_eq!(frame.get_pixel(2, 2), BLUE);
        assert_eq!(frame.get_pixel(3, 3), BLUE);
        assert_eq!(frame.get_pixel(2, 0), RED);
        assert_eq!(frame.get_pixel(4, 4), CLEAR);
    }
}

#[test]
fn order_of_clips_decides_the_overlap() {
    let mut video = Video::new(5, 5).with_fps(10);
    let mut segment = segment_of(Time::Frame(1));
    segment.clips.push(block(1, 1, 3, BLUE, 0, 3));
    segment.clips.push(block(0, 0, 3, RED, 0, 3));
    video.segments.push(segment);
    let mut frame = video.new_framebuffer();
    video.compose_frame(RenderCursor { segment: 0, frame: 0, done: 0 }, &mut frame);
    assert_eq!(frame.get_pixel(1, 1), RED);
    assert_eq!(frame.get_pixel(2, 2), RED);
    assert_eq!(frame.get_pixel(3, 3), BLUE);
}

#[test]
fn overlap_shows_the_later_clip_only_while_it_is_active() {
    let mut video = Video::new(2, 2).with_fps(10);
    let mut segment = segment_of(Time::Frame(6));
    segment.clips.push(block(0, 0, 2, RED, 0, 5));
    segment.clips.push(block(0, 0, 1, BLUE, 2, 3));
    video.segments.push(segment);
    let mut frame = video.new_framebuffer();
    for number in 0..6u32 {
        video.compose_frame(RenderCursor { segment: 0, frame: number, done: number }, &mut frame);
        let expected = if (2..=3).contains(&number) { BLUE } else { RED };
        assert_eq!(frame.get_pixel(0, 0), expected, "frame {}", number);
        assert_eq!(frame.get_pixel(1, 1), RED);
    }
}

#[test]
fn frames_count_from_the_start_of_their_segment() {
    let mut video = Video::new(1, 1).with_fps(10);
    let mut first = segment_of(Time::Frame(2));
    first.clips.push(block(0, 0, 1, RED, 0, 0));
    let mut second = segment_of(Time::Frame(2));
    second.clips.push(block(0, 0, 1, BLUE, 0, 0));
    video.segments.push(first);
    video.segments.push(second);
    let mut frame = video.new_framebuffer();
    let mut seen: Vec<[u8; 4]> = Vec::new();
    let mut cursor = video.first_frame();
    while let Some(at) = cursor {
        video.compose_frame(at, &mut frame);
        seen.push(frame.get_pixel(0, 0));
        cursor = video.next_frame(at);
    }
    assert_eq!(seen, vec![RED, CLEAR, BLUE, CLEAR]);
}

#[test]
fn cursor_walks_every_frame_in_order() {
    let mut video = Video::new(1, 1).with_fps(10);
    video.segments.push(segment_of(Time::Frame(0)));
    video.segments.push(segment_of(Time::Frame(2)));
    video.segments.push(segment_of(Time::Frame(0)));
    video.segments.push(segment_of(Time::Frame(3)));
    video.segments.push(segment_of(Time::Frame(0)));
    let mut places: Vec<(usize, u32, u32)> = Vec::new();
    let mut cursor = video.first_frame();
    while let Some(at) = cursor {
        places.push((at.segment, at.frame, at.done));
        cursor = video.next_frame(at);
    }
    assert_eq!(places, vec![(1, 0, 0), (1, 1, 1), (3, 0, 2), (3, 1, 3), (3, 2, 4)]);
    assert_eq!(video.get_total_frames(), 5);
}

#[test]
fn video_without_frames_has_no_first_frame() {
    let mut video = Video::new(1, 1);
    video.segments.push(segment_of(Time::Frame(0)));
    video.segments.push(segment_of(Time::Seconds(Seconds::from_micros(1))));
    assert_eq!(video.first_frame(), None);
}

#[test]
fn two_seconds_at_ten_frames_submit_twenty_frames() {
    let mut video = Video::new(64, 64).with_fps(10);
    let mut segment = segment_of(Time::Seconds(Seconds::whole(2)));
    let transform = ClipTransform {
        duration: Duration {
            start: Time::Seconds(Seconds::whole(0)),
            end: Time::Seconds(Seconds::whole(2)),
        },
        bounds: Rect::from_dimensions(8, 8, 16, 16),
    };
    let source = FrameBuffer::from_raw(2, 2, RED.repeat(4)).unwrap();
    segment.clips.push(Box::new(ImageClip::new(transform, &source)));
    video.segments.push(segment);

    let mut submitted: Vec<Vec<u8>> = Vec::new();
    let mut frame = video.new_framebuffer();
    let mut cursor = video.first_frame();
    while let Some(at) = cursor {
        assert_eq!(at.done as usize, submitted.len());
        video.compose_frame(at, &mut frame);
        submitted.push(frame.as_bytes().to_vec());
        cursor = video.next_frame(at);
    }
    assert_eq!(submitted.len(), 20);
    assert_eq!(video.get_total_frames(), 20);
    for bytes in &submitted {
        assert_eq!(bytes.len(), 64 * 64 * 4);
        assert_eq!(bytes[4 * (8 * 64 + 8)..4 * (8 * 64 + 8) + 4], RED);
        assert_eq!(bytes[0..4], CLEAR);
    }
}

#[test]
fn compose_clears_what_the_last_frame_left() {
    let mut video = Video::new(2, 1).with_fps(10);
    let mut segment = segment_of(Time::Frame(2));
    segment.clips.push(block(0, 0, 1, RED, 0, 0));
    video.segments.push(segment);
    let mut frame = video.new_framebuffer();
    video.compose_frame(RenderCursor { segment: 0, frame: 0, done: 0 }, &mut frame);
    assert_eq!(frame.data, vec![255, 0, 0, 255, 0, 0, 0, 0]);
    video.compose_frame(RenderCursor { segment: 0, frame: 1, done: 1 }, &mut frame);
    assert_eq!(frame.data, vec![0u8; 8]);
}

#[test]
fn render_error_wraps_the_encoder_error() {
    let wrapped = RenderError::from(FfmpegError::NotFound("ffmpeg".to_string()));
    assert!(matches!(wrapped, RenderError::FfmpegError(FfmpegError::NotFound(path)) if path == "ffmpeg"));
}

#[test]
fn render_error_message_wraps_the_encoder_message() {
    let error = RenderError::from(FfmpegError::NotFound("ffmpeg".to_string()));
    assert_eq!(error.message(), "FFMPEG Error: Could not find FFMPEG at ffmpeg. Check your PATH.");
    let failed = RenderError::FfmpegError(FfmpegError::Failed(Some(2)));
    assert_eq!(failed.message(), "FFMPEG Error: FFMPEG did not finish its work.");
}

#[test]
fn render_error_message_with_detail_is_exact() {
    let error = RenderError::FfmpegError(FfmpegError::Unknown(std::io::Error::new(
        std::io::ErrorKind::Other,
        "pipe burst",
    )));
    assert_eq!(error.detail(), "pipe burst");
    assert_eq!(error.message_with("closed"), "FFMPEG Error: Unknown error starting FFMPEG: closed");
    assert_eq!(error.message(), "FFMPEG Error: Unknown error starting FFMPEG: pipe burst");
}
