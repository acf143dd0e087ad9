//! Whether an infrared frame is worth looking at: dark frames and flat face patches.

use crate::number::{
    nearest_integer, nearest_single_integer, small_integers_are_exact, Double, Single,
};
use vstd::prelude::*;

verus! {

/// The brightest value of a dark pixel.
pub const BOTTOM_BIN_MAX: u8 = 31;

/// 15.0, as the pattern of a binary64 number: how much an equalized face patch has to vary.
pub const MIN_FACE_PATCH_STDDEV: u64 = 0x402e_0000_0000_0000;

/// A grayscale frame, one byte per pixel.
#[derive(Clone, Debug)]
pub struct GrayFrame {
    pub rows: u32,
    pub cols: u32,
    pub data: Vec<u8>,
}

/// A rectangle of pixels.
#[derive(Clone, Copy, Debug, PartialEq, Eq, Structural)]
pub struct Rect {
    pub x: i32,
    pub y: i32,
    pub width: i32,
    pub height: i32,
}

/// The corners of a detected face: left, top, right, bottom.
#[derive(Clone, Copy, Debug, PartialEq, Eq, Structural)]
pub struct BoundingBox {
    pub x1: Single,
    pub y1: Single,
    pub x2: Single,
    pub y2: Single,
}

/// How many pixels are dark.
pub open spec fn dark_pixels(data: Seq<u8>) -> nat
    decreases data.len(),
{
    if data.len() == 0 {
        0
    } else {
        dark_pixels(data.drop_last()) + (if data.last() <= BOTTOM_BIN_MAX {
            1nat
        } else {
            0nat
        })
    }
}

/// `dark / total` is more than 0.60 in binary32 arithmetic. 0.60 is held as
/// 10066330 / 2^24, and a quotient rounds to something above that exactly if it is above
/// the midpoint to the next number, 20132661 / 2^25; at the midpoint the tie goes to the
/// even 10066330. Both counts are rounded to binary32 numbers first.
pub open spec fn mostly(dark: nat, total: nat) -> bool {
    nearest_integer(dark) * 0x200_0000 > 20132661 * nearest_integer(total)
}

/// The frame has no pixels, or more than 60 percent of them are dark.
pub open spec fn dark_frame(rows: u32, cols: u32, data: Seq<u8>) -> bool {
    rows * cols == 0 || mostly(dark_pixels(data), (rows * cols) as nat)
}

proof fn lemma_dark_pixels_bound(data: Seq<u8>)
    ensures
        dark_pixels(data) <= data.len(),
    decreases data.len(),
{
    if data.len() > 0 {
        lemma_dark_pixels_bound(data.drop_last());
    }
}

/// A frame of up to 2^24 pixels is dark if more than 61 percent of its pixels are dark,
/// and not dark if no more than 60 percent are.
pub proof fn dark_frames_by_percentage(rows: u32, cols: u32, data: Seq<u8>)
    requires
        0 < rows * cols <= 0x100_0000,
        data.len() == rows * cols,
    ensures
        100 * dark_pixels(data) > 61 * (rows * cols) ==> dark_frame(rows, cols, data),
        100 * dark_pixels(data) <= 60 * (rows * cols) ==> !dark_frame(rows, cols, data),
{
    lemma_dark_pixels_bound(data);
    small_integers_are_exact(dark_pixels(data));
    small_integers_are_exact((rows * cols) as nat);
}

/// Pixels count one by one: the dark pixels of two parts add up, and a pixel is dark exactly
/// if it is in the lowest eighth of the values.
pub proof fn dark_pixels_add_up(first: Seq<u8>, rest: Seq<u8>, pixel: u8)
    ensures
        dark_pixels(first + rest) == dark_pixels(first) + dark_pixels(rest),
        dark_pixels(seq![pixel]) == if pixel < 32 {
            1nat
        } else {
            0nat
        },
    decreases rest.len(),
{
    if rest.len() > 0 {
        dark_pixels_add_up(first, rest.drop_last(), pixel);
        assert((first + rest).drop_last() =~= first + rest.drop_last());
        assert((first + rest).last() == rest.last());
    } else {
        assert(first + rest =~= first);
    }
    assert(seq![pixel].drop_last() =~= seq![]);
    assert(dark_pixels(seq![pixel].drop_last()) == 0);
}

/// Up to three and a half million pixels, a frame is dark exactly if more than three fifths
/// of its pixels are dark; a frame without pixels is always dark.
pub proof fn dark_frames_are_mostly_dark(rows: u32, cols: u32, data: Seq<u8>)
    requires
        data.len() == rows * cols,
        rows * cols <= 3500000,
    ensures
        dark_frame(rows, cols, data) <==> rows * cols == 0 || 5 * dark_pixels(data) > 3 * (rows
            * cols),
{
    lemma_dark_pixels_bound(data);
    small_integers_are_exact(dark_pixels(data));
    small_integers_are_exact((rows * cols) as nat);
}

/// Whether a frame is too dark to look for a face in.
pub fn is_dark_frame(gray: &GrayFrame) -> (r: bool)
    ensures
        r == dark_frame(gray.rows, gray.cols, gray.data@),
{
    assert(gray.rows * gray.cols <= 0xffff_ffff * 0xffff_ffff) by (nonlinear_arith)
        requires
            gray.rows <= 0xffff_ffff,
            gray.cols <= 0xffff_ffff,
    ;
    let total: u64 = (gray.rows as u64) * (gray.cols as u64);
    if total == 0 {
        return true;
    }
    let mut dark: u64 = 0;
    let mut i: usize = 0;
    while i < gray.data.len()
        invariant
            i <= gray.data.len(),
            dark <= i,
            dark == dark_pixels(gray.data@.subrange(0, i as int)),
        decreases gray.data.len() - i,
    {
        assert(gray.data@.subrange(0, i + 1).drop_last() =~= gray.data@.subrange(0, i as int));
        if gray.data[i] <= BOTTOM_BIN_MAX {
            dark = dark + 1;
        }
        i = i + 1;
    }
    assert(gray.data@.subrange(0, i as int) =~= gray.data@);
    nearest_single_integer(dark) * 0x200_0000 > 20132661 * nearest_single_integer(total)
}

/// `value`, but no more than `limit`.
pub open spec fn at_most(value: int, limit: int) -> int {
    if value <= limit {
        value
    } else {
        limit
    }
}

/// The place of the last pixel of an axis; a size has no less than the smallest `i32`.
pub open spec fn last_pixel(size: int) -> int {
    if size <= i32::MIN {
        size
    } else {
        size - 1
    }
}

/// The pixels of one axis that a span covers: where it starts, no later than the last
/// pixel, and how many it has, none where it ends before it starts.
pub open spec fn clamped_span(from: Single, to: Single, size: int) -> (int, int) {
    let start = at_most(from.floored(), last_pixel(size));
    let end = at_most(to.floored(), size);
    (start, if end > start {
        end - start
    } else {
        0
    })
}

fn clamp_span(from: Single, to: Single, size: i32) -> (r: (i32, i32))
    ensures
        (r.0 as int, r.1 as int) == clamped_span(from, to, size as int),
{
    proof {
        from.lemma_floored();
        to.lemma_floored();
    }
    let a: i32 = from.floor_to_i32();
    let b: i32 = to.floor_to_i32();
    let last: i32 = if size == i32::MIN {
        size
    } else {
        size - 1
    };
    let start: i32 = if a <= last {
        a
    } else {
        last
    };
    let end: i32 = if b <= size {
        b
    } else {
        size
    };
    if end > start {
        (start, end - start)
    } else {
        (start, 0)
    }
}

/// The part of a frame that a bounding box covers.
pub fn clamp_bbox(cols: i32, rows: i32, bbox: BoundingBox) -> (r: Rect)
    ensures
        (r.x as int, r.width as int) == clamped_span(bbox.x1, bbox.x2, cols as int),
        (r.y as int, r.height as int) == clamped_span(bbox.y1, bbox.y2, rows as int),
{
    let (x, width): (i32, i32) = clamp_span(bbox.x1, bbox.x2, cols);
    let (y, height): (i32, i32) = clamp_span(bbox.y1, bbox.y2, rows);
    Rect { x, y, width, height }
}

/// What a box covers of a frame that has pixels lies within the frame.
pub proof fn clamped_boxes_lie_in_the_frame(from: Single, to: Single, size: int)
    requires
        size > 0,
    ensures
        0 <= clamped_span(from, to, size).0 < size,
        0 <= clamped_span(from, to, size).1,
        clamped_span(from, to, size).0 + clamped_span(from, to, size).1 <= size,
{
    from.lemma_floored();
    to.lemma_floored();
}

/// Of a box that starts within the frame, the covered pixels are those of the frame between
/// its two ends; a box that starts after the frame covers the last pixel at most.
pub proof fn boxes_cover_what_is_between_their_ends(from: Single, to: Single, size: int, p: int)
    requires
        0 < size,
        0 <= p < size,
    ensures
        ({
            let (start, length) = clamped_span(from, to, size);
            &&& from.floored() < size ==> (start <= p < start + length <==> from.floored() <= p
                < to.floored())
            &&& from.floored() >= size && start <= p < start + length ==> p == size - 1
        }),
{
    from.lemma_floored();
    to.lemma_floored();
}

/// The patch of a face that is checked for texture, if it is larger than a line of pixels.
pub fn texture_patch(cols: i32, rows: i32, bbox: BoundingBox) -> (r: Option<Rect>)
    ensures
        ({
            let across = clamped_span(bbox.x1, bbox.x2, cols as int);
            let down = clamped_span(bbox.y1, bbox.y2, rows as int);
            match r {
                Some(rect) => across.1 > 1 && down.1 > 1 && (
                    rect.x as int,
                    rect.width as int,
                ) == across && (rect.y as int, rect.height as int) == down,
                None => across.1 <= 1 || down.1 <= 1,
            }
        }),
        r matches Some(rect) ==> rect.width > 1 && rect.height > 1,
        r matches Some(rect) ==> cols > 0 ==> 0 <= rect.x && rect.x + rect.width <= cols,
        r matches Some(rect) ==> rows > 0 ==> 0 <= rect.y && rect.y + rect.height <= rows,
{
    proof {
        if cols > 0 {
            clamped_boxes_lie_in_the_frame(bbox.x1, bbox.x2, cols as int);
        }
        if rows > 0 {
            clamped_boxes_lie_in_the_frame(bbox.y1, bbox.y2, rows as int);
        }
    }
    let rect: Rect = clamp_bbox(cols, rows, bbox);
    if rect.width <= 1 || rect.height <= 1 {
        None
    } else {
        Some(rect)
    }
}

/// Whether an equalized patch with the given standard deviation looks like a live face: it
/// varies by at least `MIN_FACE_PATCH_STDDEV`. Without a patch it does not.
pub fn has_live_texture(stddev: Option<Double>) -> (r: bool)
    ensures
        r == (stddev matches Some(d) && (Double { bits: MIN_FACE_PATCH_STDDEV }).at_most(d)),
{
    match stddev {
        None => false,
        Some(d) => Double { bits: MIN_FACE_PATCH_STDDEV }.le(d),
    }
}

} // verus!
