//! The pixel buffer that frames are composited into: rows of RGBA pixels,
//! eight bits a channel, row after row without padding.

use vstd::prelude::*;

verus! {

/// Bytes in one pixel.
pub const BYTES_PER_PIXEL: usize = 4;

/// The longest side, in pixels, of an image that is scaled and of the image
/// it is scaled to. The scaling places its samples in single-precision
/// arithmetic, which tells neighbouring columns apart only while their
/// numbers are small enough; up to this length it always does.
pub const MAX_SCALED_SIDE: u32 = 1_048_576;

/// A `width` by `height` image of RGBA pixels in row-major order.
#[derive(Debug)]
pub struct FrameBuffer {
    pub width: u32,
    pub height: u32,
    pub data: Vec<u8>,
}

/// What a frame buffer holds, as mathematics: its size and its bytes.
pub struct Frame {
    pub width: nat,
    pub height: nat,
    pub bytes: Seq<u8>,
}

/// What `image::Pixel::blend` leaves in an RGBA pixel of 8-bit channels
/// holding `under` when it is called with the pixel `over`: the four channels
/// of `over` composited source-over onto `under`.
pub uninterp spec fn blended(under: Seq<u8>, over: Seq<u8>) -> Seq<u8>;

/// The pixels that `image::imageops::resize` with the triangle filter makes of
/// a `width` by `height` RGBA image with the bytes `pixels`, when asked for
/// `new_width` by `new_height`.
pub uninterp spec fn resized(
    width: u32,
    height: u32,
    pixels: Seq<u8>,
    new_width: u32,
    new_height: u32,
) -> Seq<u8>;

impl Frame {
    /// The frame holds exactly four bytes for each of its pixels.
    pub open spec fn wf(self) -> bool {
        self.bytes.len() == self.width * self.height * 4
    }

    /// The column of the pixel that byte `i` belongs to.
    pub open spec fn column_of(self, i: int) -> int {
        (i / 4) % (self.width as int)
    }

    /// The row of the pixel that byte `i` belongs to.
    pub open spec fn row_of(self, i: int) -> int {
        (i / 4) / (self.width as int)
    }

    /// The four channels of the pixel at column `x`, row `y`.
    pub open spec fn pixel(self, x: int, y: int) -> Seq<u8> {
        let first = 4 * (y * self.width + x);
        self.bytes.subrange(first, first + 4)
    }

    /// The four channels of the pixel that byte `i` belongs to.
    pub open spec fn pixel_of(self, i: int) -> Seq<u8> {
        self.pixel(self.column_of(i), self.row_of(i))
    }

    /// Every byte is zero: transparent black all over.
    pub open spec fn is_clear(self) -> bool {
        forall|i: int| 0 <= i < self.bytes.len() ==> self.bytes[i] == 0
    }

    /// The frame of the same size with every byte set to `value`.
    pub open spec fn filled(self, value: u8) -> Frame {
        Frame {
            width: self.width,
            height: self.height,
            bytes: Seq::new(self.bytes.len(), |i: int| value),
        }
    }

    /// The frame of the same size with every byte zero.
    pub open spec fn cleared(self) -> Frame {
        self.filled(0)
    }

    /// Whether byte `i` belongs to a pixel on which a `width` by `height`
    /// image placed with its top-left corner at (`x`, `y`) falls.
    pub open spec fn under(self, i: int, x: int, y: int, width: int, height: int) -> bool {
        x <= self.column_of(i) < x + width && y <= self.row_of(i) < y + height
    }

    /// This frame after `top` has been composited onto it with its top-left
    /// corner at (`x`, `y`): where `top` falls into the frame each pixel is
    /// the blend of the two, elsewhere nothing changes.
    pub open spec fn overlaid(self, top: Frame, x: u32, y: u32) -> Frame {
        Frame {
            width: self.width,
            height: self.height,
            bytes: Seq::new(
                self.bytes.len(),
                |i: int|
                    if self.under(i, x as int, y as int, top.width as int, top.height as int) {
                        blended(
                            self.pixel_of(i),
                            top.pixel(self.column_of(i) - x, self.row_of(i) - y),
                        )[i % 4]
                    } else {
                        self.bytes[i]
                    },
            ),
        }
    }
}

impl View for FrameBuffer {
    type V = Frame;

    open spec fn view(&self) -> Frame {
        Frame { width: self.width as nat, height: self.height as nat, bytes: self.data@ }
    }
}

impl FrameBuffer {
    /// The buffer holds exactly four bytes for each of its pixels.
    pub open spec fn wf(&self) -> bool {
        self@.wf()
    }

    /// A cleared buffer of the given size.
    pub fn new(width: u32, height: u32) -> (buffer: FrameBuffer)
        requires
            width as nat * height as nat * 4 <= usize::MAX,
        ensures
            buffer.width == width,
            buffer.height == height,
            buffer.wf(),
            buffer@.is_clear(),
    {
        let w: usize = width as usize;
        let h: usize = height as usize;
        assert(w * h <= w * h * 4) by (nonlinear_arith)
            requires
                w >= 0,
                h >= 0,
        ;
        let len: usize = w * h * BYTES_PER_PIXEL;
        let data: Vec<u8> = vec![0u8; len];
        FrameBuffer { width, height, data }
    }

    /// Takes `data` as the pixels of a `width` by `height` image, if it holds
    /// exactly that many.
    pub fn from_raw(width: u32, height: u32, data: Vec<u8>) -> (buffer: Option<FrameBuffer>)
        ensures
            buffer is Some <==> data@.len() == width as nat * height as nat * 4,
            buffer is Some ==> buffer->0.width == width && buffer->0.height == height
                && buffer->0.data@ == data@ && buffer->0.wf(),
    {
        assert(width as nat * height as nat <= 0xffff_ffff * 0xffff_ffff) by (nonlinear_arith)
            requires
                width <= 0xffff_ffff,
                height <= 0xffff_ffff,
        ;
        let pixels: u128 = (width as u128) * (height as u128);
        let wanted: u128 = pixels * 4;
        if data.len() as u128 == wanted {
            Some(FrameBuffer { width, height, data })
        } else {
            None
        }
    }

    /// Sets every byte of the buffer to `value`.
    pub fn fill(&mut self, value: u8)
        ensures
            final(self)@ == old(self)@.filled(value),
            old(self).wf() ==> final(self).wf(),
    {
        let len: usize = self.data.len();
        let mut i: usize = 0;
        while i < len
            invariant
                i <= len,
                self.data@.len() == len,
                self.width == old(self).width,
                self.height == old(self).height,
                forall|j: int| 0 <= j < i ==> self.data@[j] == value,
            decreases len - i,
        {
            self.data.set(i, value);
            i += 1;
        }
        assert(self@.bytes =~= old(self)@.filled(value).bytes);
    }

    /// The bytes of the buffer, as an encoder takes them: one frame, with no
    /// header and no padding.
    pub fn as_bytes(&self) -> (bytes: &[u8])
        ensures
            bytes@ == self@.bytes,
            self.wf() ==> bytes@.len() == self.width as nat * self.height as nat * 4,
    {
        self.data.as_slice()
    }

    /// The four channels of the pixel at column `x`, row `y`.
    pub fn get_pixel(&self, x: u32, y: u32) -> (channels: [u8; 4])
        requires
            self.wf(),
            x < self.width,
            y < self.height,
        ensures
            channels@ == self@.pixel(x as int, y as int),
    {
        let w: usize = self.width as usize;
        let row: usize = y as usize;
        let col: usize = x as usize;
        let ghost pixels: int = self.width as int * self.height as int;
        assert(0 <= row as int * w as int && row as int * w as int + col as int + 1 <= pixels)
            by (nonlinear_arith)
            requires
                0 <= col < w,
                0 <= row < self.height,
                w == self.width,
                pixels == self.width as int * self.height as int,
        ;
        let len: usize = self.data.len();
        assert(len == pixels * 4);
        let first: usize = 4 * (row * w + col);
        let channels: [u8; 4] = [
            self.data[first],
            self.data[first + 1],
            self.data[first + 2],
            self.data[first + 3],
        ];
        assert(channels@ =~= self@.pixel(x as int, y as int));
        channels
    }

    /// Composites `top` onto this buffer with its top-left corner at
    /// (`x`, `y`): source-over, by the alpha of `top`. Pixels of `top` that
    /// fall outside the buffer are dropped.
    pub fn composite(&mut self, top: &FrameBuffer, x: u32, y: u32)
        requires
            old(self).wf(),
            top.wf(),
        ensures
            final(self).width == old(self).width,
            final(self).height == old(self).height,
            final(self).wf(),
            final(self)@ == old(self)@.overlaid(top@, x, y),
    {
        if self.width == 0 || self.height == 0 || top.width == 0 || top.height == 0 {
            // no pixel of `top` falls on a pixel of the buffer
            assert(self.width as nat * self.height as nat * 4 == 0 || top.width == 0
                || top.height == 0) by (nonlinear_arith)
                requires
                    self.width == 0 || self.height == 0 || top.width == 0 || top.height == 0,
            ;
            assert(self@.bytes =~= old(self)@.overlaid(top@, x, y).bytes);
            return ;
        }
        self.overlay(top, x, y);
        assert(self@.bytes =~= old(self)@.overlaid(top@, x, y).bytes);
    }

    /// Calls `image::imageops::overlay` on the two images. The contract
    /// restates that function's loop: it visits the part of `top` that falls
    /// into the buffer, replaces each pixel there by its blend with the pixel
    /// of `top`, and touches nothing else. Both images have pixels: the
    /// outside crate measures an image row by row before it counts the
    /// rows, and a row too long to measure stops it even where there is
    /// none.
    #[verifier::external_body]
    fn overlay(&mut self, top: &FrameBuffer, x: u32, y: u32)
        requires
            old(self).wf(),
            top.wf(),
            old(self).width > 0,
            old(self).height > 0,
            top.width > 0,
            top.height > 0,
        ensures
            final(self).width == old(self).width,
            final(self).height == old(self).height,
            final(self).data@.len() == old(self).data@.len(),
            forall|i: int|
                0 <= i < old(self).data@.len() && !old(self)@.under(
                    i,
                    x as int,
                    y as int,
                    top.width as int,
                    top.height as int,
                ) ==> #[trigger] final(self).data@[i] == old(self).data@[i],
            forall|i: int|
                0 <= i < old(self).data@.len() && old(self)@.under(
                    i,
                    x as int,
                    y as int,
                    top.width as int,
                    top.height as int,
                ) ==> #[trigger] final(self).data@[i] == blended(
                    old(self)@.pixel_of(i),
                    top@.pixel(old(self)@.column_of(i) - x, old(self)@.row_of(i) - y),
                )[i % 4],
    {
        let mut under = image::ImageBuffer::<image::Rgba<u8>, &mut [u8]>::from_raw(
            self.width,
            self.height,
            self.data.as_mut_slice(),
        ).unwrap();
        let over = image::ImageBuffer::<image::Rgba<u8>, &[u8]>::from_raw(
            top.width,
            top.height,
            top.data.as_slice(),
        ).unwrap();
        image::imageops::overlay(&mut under, &over, x, y);
    }

    /// Scales this image to `width` by `height` with the triangle filter, by
    /// `image::imageops::resize`. The contract claims the size of what comes
    /// back and names its pixels. The function is called only where it is
    /// known to return: on an image with pixels, for an image with pixels,
    /// no side of either longer than `MAX_SCALED_SIDE`, and both the result
    /// and the image it makes on the way (as wide as this one, as high as
    /// the result) small enough to be held.
    #[verifier::external_body]
    pub(crate) fn resize(&self, width: u32, height: u32) -> (scaled: FrameBuffer)
        requires
            self.wf(),
            0 < self.width <= MAX_SCALED_SIDE,
            0 < self.height <= MAX_SCALED_SIDE,
            0 < width <= MAX_SCALED_SIDE,
            0 < height <= MAX_SCALED_SIDE,
            width as nat * height as nat * 4 <= usize::MAX,
            self.width as nat * height as nat * 4 <= usize::MAX,
        ensures
            scaled.width == width,
            scaled.height == height,
            scaled.wf(),
            scaled.data@ == resized(self.width, self.height, self.data@, width, height),
    {
        let source = image::ImageBuffer::<image::Rgba<u8>, &[u8]>::from_raw(
            self.width,
            self.height,
            self.data.as_slice(),
        ).unwrap();
        let scaled = image::imageops::resize(
            &source,
            width,
            height,
            image::imageops::FilterType::Triangle,
        );
        FrameBuffer { width: scaled.width(), height: scaled.height(), data: scaled.into_raw() }
    }
}

/// Compositing changes no byte of a pixel on which the placed image does not
/// fall, and keeps the size of the frame.
pub proof fn lemma_overlay_outside(bottom: Frame, top: Frame, x: u32, y: u32, i: int)
    requires
        0 <= i < bottom.bytes.len(),
        !bottom.under(i, x as int, y as int, top.width as int, top.height as int),
    ensures
        bottom.overlaid(top, x, y).bytes[i] == bottom.bytes[i],
        bottom.overlaid(top, x, y).bytes.len() == bottom.bytes.len(),
{
}

} // verus!
