//! Preview frames: their size, their pixels and their encoding.

use crate::text::{contains_text, decimal, decimal_text, stands_at};
use vstd::prelude::*;
use vstd::string::*;

verus! {

/// The most pixels that a preview is wide.
pub const PREVIEW_MAX_WIDTH: i32 = 854;

/// The quality that previews are encoded at.
pub const PREVIEW_QUALITY: u8 = 88;

/// A frame with three bytes per pixel: blue, green and red.
#[derive(Clone, Debug)]
pub struct BgrFrame {
    pub width: i32,
    pub height: i32,
    pub data: Vec<u8>,
}

/// Why a frame gives no preview.
#[derive(Clone, Debug, PartialEq, Eq)]
pub enum PreviewError {
    /// The frame has no pixels.
    NoPixels,
    /// The frame's bytes are not one buffer of its size.
    NotContinuous { width: u32, height: u32 },
    /// The encoder refused the frame; the text says why.
    Encoding(String),
}

impl PreviewError {
    /// The message that the error is shown with.
    pub open spec fn message_text(self) -> Seq<char> {
        match self {
            PreviewError::NoPixels => "preview frame has no pixels"@,
            PreviewError::NotContinuous { width, height } => "preview frame is not a continuous "@
                + decimal_text(width as nat) + "x"@ + decimal_text(height as nat)
                + " RGB buffer"@,
            PreviewError::Encoding(why) => why@,
        }
    }

    /// The message that the error is shown with.
    pub fn message(&self) -> (r: String)
        ensures
            r@ == self.message_text(),
    {
        match self {
            PreviewError::NoPixels => "preview frame has no pixels".to_owned(),
            PreviewError::NotContinuous { width, height } => {
                let mut text: String = "preview frame is not a continuous ".to_owned();
                text.append(decimal(*width as u64).as_str());
                text.append("x");
                text.append(decimal(*height as u64).as_str());
                text.append(" RGB buffer");
                text
            },
            PreviewError::Encoding(why) => why.as_str().to_owned(),
        }
    }
}

/// What to do next with a frame.
#[derive(Clone, Debug)]
pub enum PreviewStep {
    /// Scale it to this size first.
    Resize { width: i32, height: i32 },
    /// The preview is ready.
    Encoded(Vec<u8>),
}

/// What the encoder makes of RGB pixels of an image of the given width, height and
/// quality: the encoded image, or the words of its refusal.
pub uninterp spec fn jpeg_of(
    pixels: Seq<u8>,
    width: u32,
    height: u32,
    quality: u8,
) -> Result<Seq<u8>, Seq<char>>;

/// `image`'s `JpegEncoder`: encodes RGB pixels. It refuses an image exactly if a side is
/// zero or does not fit 16 bits, in words that depend on the two sides alone. What it writes
/// starts with the start-of-image marker and ends with the end-of-image marker.
#[verifier::external_body]
fn encode_jpeg(pixels: &[u8], width: u32, height: u32, quality: u8) -> (r: Result<Vec<u8>, String>)
    requires
        pixels@.len() == width * height * 3,
    ensures
        (r is Ok) == (width != 0 && height != 0 && 0xffff >= width && 0xffff >= height),
        match r {
            Ok(jpeg) => jpeg_of(pixels@, width, height, quality) == Ok::<Seq<u8>, Seq<char>>(jpeg@),
            Err(why) => jpeg_of(pixels@, width, height, quality) == Err::<Seq<u8>, Seq<char>>(why@),
        },
        r matches Ok(jpeg) ==> marked(jpeg@),
{
    let mut jpeg = Vec::new();
    image::codecs::jpeg::JpegEncoder::new_with_quality(&mut jpeg, quality)
        .encode(pixels, width, height, image::ExtendedColorType::Rgb8)
        .map_err(|e| e.to_string())?;
    Ok(jpeg)
}

/// The bytes start with the start-of-image marker and end with the end-of-image marker.
pub open spec fn marked(jpeg: Seq<u8>) -> bool {
    &&& jpeg.len() >= 4
    &&& jpeg[0] == 0xff
    &&& jpeg[1] == 0xd8
    &&& jpeg[jpeg.len() - 2] == 0xff
    &&& jpeg[jpeg.len() - 1] == 0xd9
}

/// The size of the preview of a frame with pixels: no wider than the cap and not scaled
/// up, of the frame's shape, and at least one pixel high.
pub open spec fn preview_size(width: int, height: int) -> (int, int) {
    let w = if width < PREVIEW_MAX_WIDTH {
        width
    } else {
        PREVIEW_MAX_WIDTH as int
    };
    let h = height * w / width;
    (w, if h < 1 {
        1
    } else {
        h
    })
}

/// A preview is never larger than its frame and never wider than the cap; its height is
/// the frame's scaled with the width, cut to a whole pixel. A frame of preview size stays
/// as it is.
pub proof fn previews_keep_their_shape(width: int, height: int)
    requires
        width > 0,
        height > 0,
    ensures
        0 < preview_size(width, height).0 <= PREVIEW_MAX_WIDTH,
        preview_size(width, height).0 <= width,
        0 < preview_size(width, height).1 <= height,
        preview_size(width, height).1 > 1 ==> {
            let (w, h) = preview_size(width, height);
            h * width <= height * w < (h + 1) * width
        },
        width <= PREVIEW_MAX_WIDTH ==> preview_size(width, height) == (width, height),
        preview_size(preview_size(width, height).0, preview_size(width, height).1) == preview_size(
            width,
            height,
        ),
{
    let (w, h) = preview_size(width, height);
    lemma_scaled(width, height, w);
    lemma_scaled(w, h, w);
}

proof fn lemma_scaled(width: int, height: int, w: int)
    requires
        0 < w <= width,
        height > 0,
    ensures
        0 <= height * w / width <= height,
        (height * w / width) * width <= height * w < (height * w / width + 1) * width,
        w == width ==> height * w / width == height,
{
    let p = height * w;
    let q = p / width;
    assert(p <= height * width && p >= 0) by (nonlinear_arith)
        requires
            p == height * w,
            0 < w <= width,
            height > 0,
    ;
    assert(q * width <= p < (q + 1) * width && 0 <= q) by (nonlinear_arith)
        requires
            q == p / width,
            width > 0,
            p >= 0,
    ;
    assert(q <= height) by (nonlinear_arith)
        requires
            q * width <= p,
            p <= height * width,
            width > 0,
    ;
    if w == width {
        assert(q == height) by (nonlinear_arith)
            requires
                p == height * width,
                q * width <= p < (q + 1) * width,
                width > 0,
        ;
    }
}

/// Pixels with the first and the third byte of each swapped.
pub open spec fn swapped(data: Seq<u8>) -> Seq<u8> {
    Seq::new(data.len(), |i: int| data[i + 2 - 2 * (i % 3)])
}

/// Turns BGR pixels into RGB pixels.
pub fn bgr_to_rgb(data: &[u8]) -> (rgb: Vec<u8>)
    requires
        data@.len() % 3 == 0,
    ensures
        rgb@ == swapped(data@),
{
    let mut rgb: Vec<u8> = Vec::with_capacity(data.len());
    let mut i: usize = 0;
    while i < data.len()
        invariant
            data@.len() % 3 == 0,
            i % 3 == 0,
            i <= data.len(),
            rgb@ == swapped(data@).subrange(0, i as int),
        decreases data.len() - i,
    {
        rgb.push(data[i + 2]);
        rgb.push(data[i + 1]);
        rgb.push(data[i]);
        assert(rgb@ =~= swapped(data@).subrange(0, i + 3));
        i = i + 3;
    }
    assert(swapped(data@).subrange(0, i as int) =~= swapped(data@));
    rgb
}

/// Swapping twice gives the pixels back.
pub proof fn swapping_undoes_itself(data: Seq<u8>)
    requires
        data.len() % 3 == 0,
    ensures
        swapped(swapped(data)) == data,
{
    assert forall|i: int| 0 <= i < data.len() implies swapped(swapped(data))[i] == data[i] by {
        let j = i + 2 - 2 * (i % 3);
        assert(0 <= j < data.len());
        assert(j + 2 - 2 * (j % 3) == i);
    }
    assert(swapped(swapped(data)) =~= data);
}

/// Of each pixel the first and the last byte change places and the middle one stays.
pub proof fn swapping_stays_within_the_pixel(data: Seq<u8>, pixel: int)
    requires
        0 <= pixel,
        3 * pixel + 2 < data.len(),
    ensures
        swapped(data).len() == data.len(),
        swapped(data)[3 * pixel] == data[3 * pixel + 2],
        swapped(data)[3 * pixel + 1] == data[3 * pixel + 1],
        swapped(data)[3 * pixel + 2] == data[3 * pixel],
{
}

/// A frame wider than the cap is scaled down to the cap, and a preview is only then lower
/// than its shape calls for if it would have no height at all.
pub proof fn wide_frames_are_scaled_to_the_cap(width: int, height: int)
    requires
        width > 0,
        height > 0,
    ensures
        width >= 854 ==> preview_size(width, height).0 == 854,
        width < 854 ==> preview_size(width, height).0 == width,
        ({
            let (w, h) = preview_size(width, height);
            &&& height * w < (h + 1) * width
            &&& height * w >= width ==> h * width <= height * w
            &&& height * w < width ==> h == 1
        }),
{
    let (w, h) = preview_size(width, height);
    lemma_scaled(width, height, w);
    let exact = height * w / width;
    if exact < 1 {
        assert(height * w < width && height * w < (1 + 1) * width) by (nonlinear_arith)
            requires
                height * w < (exact + 1) * width,
                exact < 1,
                width > 0,
        ;
    } else {
        assert(height * w >= width) by (nonlinear_arith)
            requires
                exact * width <= height * w,
                exact >= 1,
                width > 0,
        ;
    }
}

/// The message about a frame without its bytes shows the frame's size, the width first, and
/// that of a refused frame is the encoder's.
pub proof fn messages_show_the_size(width: u32, height: u32, why: String)
    ensures
        contains_text(
            (PreviewError::NotContinuous { width, height }).message_text(),
            decimal_text(width as nat) + "x"@ + decimal_text(height as nat),
        ),
        PreviewError::Encoding(why).message_text() == why@,
{
    let text = (PreviewError::NotContinuous { width, height }).message_text();
    let size = decimal_text(width as nat) + "x"@ + decimal_text(height as nat);
    let from = "preview frame is not a continuous "@.len() as int;
    assert(text.subrange(from, from + size.len()) =~= size);
    assert(stands_at(text, size, from));
}

/// Encodes the preview of a frame: a frame wider than the cap has to be scaled down first,
/// and is handed in again at that size.
pub fn encode_preview(frame: &BgrFrame) -> (r: Result<PreviewStep, PreviewError>)
    ensures
        if frame.width <= 0 || frame.height <= 0 {
            r == Err::<PreviewStep, PreviewError>(PreviewError::NoPixels)
        } else if frame.width > PREVIEW_MAX_WIDTH {
            let size = preview_size(frame.width as int, frame.height as int);
            r == Ok::<PreviewStep, PreviewError>(
                PreviewStep::Resize { width: size.0 as i32, height: size.1 as i32 },
            )
        } else if frame.data@.len() != frame.width * frame.height * 3 {
            r == Err::<PreviewStep, PreviewError>(
                PreviewError::NotContinuous {
                    width: frame.width as u32,
                    height: frame.height as u32,
                },
            )
        } else {
            let made = jpeg_of(
                swapped(frame.data@),
                frame.width as u32,
                frame.height as u32,
                PREVIEW_QUALITY,
            );
            if frame.height > 0xffff {
                r matches Err(PreviewError::Encoding(why)) && made == Err::<Seq<u8>, Seq<char>>(
                    why@,
                )
            } else {
                r matches Ok(PreviewStep::Encoded(jpeg)) && made == Ok::<Seq<u8>, Seq<char>>(jpeg@)
                    && marked(jpeg@)
            }
        },
{
    if frame.width <= 0 || frame.height <= 0 {
        return Err(PreviewError::NoPixels);
    }
    proof {
        previews_keep_their_shape(frame.width as int, frame.height as int);
    }
    let width: i32 = if frame.width < PREVIEW_MAX_WIDTH {
        frame.width
    } else {
        PREVIEW_MAX_WIDTH
    };
    assert(0 <= frame.height * width <= 0x7fff_ffff * 0x7fff_ffff) by (nonlinear_arith)
        requires
            0 < frame.height <= 0x7fff_ffff,
            0 < width <= 0x7fff_ffff,
    ;
    let exact: i64 = (frame.height as i64) * (width as i64) / (frame.width as i64);
    let height: i32 = if exact < 1 {
        1
    } else {
        exact as i32
    };
    if width != frame.width {
        return Ok(PreviewStep::Resize { width, height });
    }
    assert(0 <= width * height <= 854 * 0x7fff_ffff) by (nonlinear_arith)
        requires
            0 < width <= 854,
            0 < height <= 0x7fff_ffff,
    ;
    let expected: u64 = (width as u64) * (height as u64) * 3;
    if frame.data.len() as u64 != expected {
        return Err(PreviewError::NotContinuous { width: width as u32, height: height as u32 });
    }
    let pixels: Vec<u8> = bgr_to_rgb(frame.data.as_slice());
    match encode_jpeg(pixels.as_slice(), width as u32, height as u32, PREVIEW_QUALITY) {
        Ok(jpeg) => Ok(PreviewStep::Encoded(jpeg)),
        Err(why) => Err(PreviewError::Encoding(why)),
    }
}

} // verus!
