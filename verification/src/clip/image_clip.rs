//! A clip that shows one still image.

use vstd::prelude::*;
use crate::clip::transform::ClipTransform;
use crate::clip::{rendered, Clip};
use crate::text::{io_error_text, join};
use crate::framebuffer::{blended, resized, Frame, FrameBuffer, MAX_SCALED_SIDE};
use crate::time::Time;

verus! {

/// The error type of the image decoder, carried through unopened.
#[verifier::external_type_specification]
#[verifier::external_body]
pub struct ExImageError(image::ImageError);

/// Why an image clip could not be made. Either way the clip does not come
/// to exist, so that no frame is ever drawn from a broken source.
#[derive(Debug)]
#[allow(inconsistent_fields)]
pub enum ImageClipError {
    /// The source could not be found or read.
    FileLoadError { path: String, error: std::io::Error },
    /// The source was read but holds no image that the decoder knows.
    DecodeError { path: String, error: image::ImageError },
}

/// What a decoder's error says of itself, by its `Display`. Nothing is
/// claimed of the words.
#[verifier::external_body]
fn image_error_text(error: &image::ImageError) -> (text: String) {
    error.to_string()
}

impl ImageClipError {
    /// This error in words, where `detail` is what the underlying error says
    /// of itself: which step failed, on which file, and then those words.
    pub open spec fn worded(self, detail: Seq<char>) -> Seq<char> {
        match self {
            ImageClipError::FileLoadError { path, error } => "Could not load image file "@
                + path@ + ". IO error: "@ + detail,
            ImageClipError::DecodeError { path, error } => "Could not decode image file "@
                + path@ + ". Image error: "@ + detail,
        }
    }

    /// What the underlying error says of itself.
    pub fn detail(&self) -> (detail: String) {
        match self {
            ImageClipError::FileLoadError { path, error } => io_error_text(error),
            ImageClipError::DecodeError { path, error } => image_error_text(error),
        }
    }

    /// The error in words, with `detail` for the words of the underlying
    /// error.
    pub fn message_with(&self, detail: &str) -> (text: String)
        ensures
            text@ == self.worded(detail@),
    {
        proof {
            reveal_strlit("");
        }
        match self {
            ImageClipError::FileLoadError { path, error } => {
                let head = join("Could not load image file ", path.as_str(), ". IO error: ");
                let text = join(head.as_str(), detail, "");
                assert(text@ =~= self.worded(detail@));
                text
            },
            ImageClipError::DecodeError { path, error } => {
                let head = join("Could not decode image file ", path.as_str(), ". Image error: ");
                let text = join(head.as_str(), detail, "");
                assert(text@ =~= self.worded(detail@));
                text
            },
        }
    }

    /// The error in words, the underlying error speaking for itself.
    pub fn message(&self) -> (text: String)
        ensures
            exists|detail: Seq<char>| text@ == #[trigger] self.worded(detail),
    {
        let detail = self.detail();
        self.message_with(detail.as_str())
    }
}

/// A still image, scaled once to the size of its rectangle when the clip is
/// made, so that drawing a frame never scales.
pub struct ImageClip {
    transform: ClipTransform,
    image: FrameBuffer,
}

impl ImageClip {
    /// The transform the clip was made with.
    pub closed spec fn transform(&self) -> ClipTransform {
        self.transform
    }

    /// The scaled image that the clip draws.
    pub closed spec fn image(&self) -> Frame {
        self.image@
    }

    /// The stored image has exactly the size of the transform's rectangle.
    pub closed spec fn fits(&self) -> bool {
        &&& self.transform.wf()
        &&& self.image.wf()
        &&& self.image.width == self.transform.bounds.max.x - self.transform.bounds.min.x
        &&& self.image.height == self.transform.bounds.max.y - self.transform.bounds.min.y
    }
}

/// Whether the image `source` can be scaled to the rectangle of `transform`:
/// both are valid and have pixels, no side of either is longer than
/// `MAX_SCALED_SIDE`, and this machine can hold the scaled image and the
/// image made on the way to it, as wide as the source and as high as the
/// rectangle.
pub open spec fn scalable(transform: ClipTransform, source: Frame) -> bool {
    let width = transform.bounds.max.x - transform.bounds.min.x;
    let height = transform.bounds.max.y - transform.bounds.min.y;
    &&& transform.wf()
    &&& source.wf()
    &&& 0 < source.width <= MAX_SCALED_SIDE
    &&& 0 < source.height <= MAX_SCALED_SIDE
    &&& width <= MAX_SCALED_SIDE
    &&& height <= MAX_SCALED_SIDE
    &&& width * height * 4 <= usize::MAX
    &&& source.width * height * 4 <= usize::MAX
}

impl ImageClip {
    /// Tests whether `source` can be scaled to the rectangle of `transform`.
    pub fn can_scale(transform: &ClipTransform, source: &FrameBuffer) -> (possible: bool)
        ensures
            possible == scalable(*transform, source@),
    {
        let bounds = transform.bounds;
        if !(bounds.min.x < bounds.max.x && bounds.min.y < bounds.max.y) {
            return false;
        }
        let width: u32 = bounds.width();
        let height: u32 = bounds.height();
        if source.width == 0 || source.width > MAX_SCALED_SIDE || source.height == 0
            || source.height > MAX_SCALED_SIDE || width > MAX_SCALED_SIDE || height
            > MAX_SCALED_SIDE {
            return false;
        }
        let limit: u64 = usize::MAX as u64;
        let high: u64 = height as u64;
        assert(width as u64 * high <= 0x100000 * 0x100000 && source.width as u64 * high
            <= 0x100000 * 0x100000 && source.width as u64 * source.height as u64 <= 0x100000
            * 0x100000) by (nonlinear_arith)
            requires
                width <= 0x100000,
                high <= 0x100000,
                source.width <= 0x100000,
                source.height <= 0x100000,
        ;
        let scaled: u64 = width as u64 * high * 4;
        let between: u64 = source.width as u64 * high * 4;
        let held: u64 = source.width as u64 * source.height as u64 * 4;
        scaled <= limit && between <= limit && source.data.len() as u64 == held
    }

    /// A clip that shows `source` in the rectangle of `transform`, scaled
    /// to that rectangle's size here and now.
    pub fn new(transform: ClipTransform, source: &FrameBuffer) -> (clip: ImageClip)
        requires
            scalable(transform, source@),
        ensures
            clip.wf(),
            clip.transform() == transform,
            clip.image() == scaled_to(transform, source@),
    {
        let width: u32 = transform.width();
        let height: u32 = transform.height();
        let image = source.resize(width, height);
        ImageClip { transform: transform, image: image }
    }

    /// Makes a clip of what reading and decoding the file at `path` gave.
    /// A file that could not be read, or not be decoded, gives the error
    /// that says which, with the path; decoded pixels give the clip that
    /// shows them, scaled to the rectangle of `transform`.
    pub fn from_file(
        transform: ClipTransform,
        path: &str,
        loaded: Result<Result<FrameBuffer, image::ImageError>, std::io::Error>,
    ) -> (made: Result<ImageClip, ImageClipError>)
        requires
            loaded matches Ok(Ok(pixels)) ==> scalable(transform, pixels@),
        ensures
            match loaded {
                Err(unread) => made matches Err(ImageClipError::FileLoadError { path: at, error })
                    && at@ == path@ && error == unread,
                Ok(Err(undecoded)) => made matches Err(
                    ImageClipError::DecodeError { path: at, error },
                ) && at@ == path@ && error == undecoded,
                Ok(Ok(pixels)) => made matches Ok(clip) && clip.wf() && clip.transform()
                    == transform && clip.image() == scaled_to(transform, pixels@),
            },
    {
        match loaded {
            Err(error) => Err(ImageClipError::FileLoadError { path: path.to_owned(), error: error }),
            Ok(Err(error)) => Err(
                ImageClipError::DecodeError { path: path.to_owned(), error: error },
            ),
            Ok(Ok(pixels)) => Ok(ImageClip::new(transform, &pixels)),
        }
    }
}

/// The image `source` scaled to the size of the rectangle of `transform`.
pub open spec fn scaled_to(transform: ClipTransform, source: Frame) -> Frame {
    let width = (transform.bounds.max.x - transform.bounds.min.x) as u32;
    let height = (transform.bounds.max.y - transform.bounds.min.y) as u32;
    Frame {
        width: width as nat,
        height: height as nat,
        bytes: resized(source.width as u32, source.height as u32, source.bytes, width, height),
    }
}

/// Where an image clip draws. Rendered while active, it leaves every byte
/// outside its rectangle as it was, so that on a cleared frame nothing but
/// background lies outside the rectangle; inside the rectangle each pixel is
/// the blend of what was there with the pixel of the scaled image that falls
/// on it.
pub proof fn lemma_image_clip_draws_within_bounds(
    clip: ImageClip,
    time: Time,
    fps: u32,
    canvas: Frame,
    i: int,
)
    requires
        clip.wf(),
        clip.transform().active_at(time, fps),
        0 <= i < canvas.bytes.len(),
    ensures
        rendered(&clip, time, fps, canvas).bytes.len() == canvas.bytes.len(),
        !clip.transform().bounds.covers(canvas.column_of(i), canvas.row_of(i)) ==> rendered(
            &clip,
            time,
            fps,
            canvas,
        ).bytes[i] == canvas.bytes[i],
        !clip.transform().bounds.covers(canvas.column_of(i), canvas.row_of(i))
            && canvas.is_clear() ==> rendered(&clip, time, fps, canvas).bytes[i] == 0,
        clip.transform().bounds.covers(canvas.column_of(i), canvas.row_of(i)) ==> rendered(
            &clip,
            time,
            fps,
            canvas,
        ).bytes[i] == blended(
            canvas.pixel_of(i),
            clip.image().pixel(
                canvas.column_of(i) - clip.transform().bounds.min.x,
                canvas.row_of(i) - clip.transform().bounds.min.y,
            ),
        )[i % 4],
{
}

impl Clip for ImageClip {
    open spec fn wf(&self) -> bool {
        self.fits()
    }

    open spec fn placement(&self) -> ClipTransform {
        self.transform()
    }

    open spec fn drawn(&self, before: Frame) -> Frame {
        before.overlaid(self.image(), self.transform().bounds.min.x, self.transform().bounds.min.y)
    }

    fn render_frame(&self, fps: u32, time: Time, framebuffer: &mut FrameBuffer) {
        if !self.transform.is_active(fps, time) {
            return ;
        }
        framebuffer.composite(&self.image, self.transform.x(), self.transform.y());
    }
}

} // verus!
