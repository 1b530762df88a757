//! Normalisation of captured frames.
//!
//! A captured frame is row-major 8-bit RGB, three bytes per pixel, rows from
//! top to bottom and without padding. The normalised frame is RGBA, four
//! bytes per pixel, with the rows in reverse order and every alpha byte 255.

use vstd::prelude::*;
use vstd::arithmetic::div_mod::lemma_fundamental_div_mod_converse;
use crate::stream::StreamDescriptor;

verus! {

/// Bytes per pixel of a captured frame.
pub const RAW_CHANNELS: usize = 3;

/// Bytes per pixel of a normalised frame.
pub const FRAME_CHANNELS: usize = 4;

/// Alpha byte of every normalised pixel.
pub const OPAQUE: u8 = 255;

/// Number of bytes that a captured frame of the given size holds.
pub open spec fn raw_len(width: nat, height: nat) -> nat {
    width * height * 3
}

/// Number of bytes of the normalised frame of the given size.
pub open spec fn frame_len(width: nat, height: nat) -> nat {
    width * height * 4
}

/// Position in the captured frame of channel `channel` of the pixel at
/// column `column` of row `row`.
pub open spec fn raw_at(width: int, row: int, column: int, channel: int) -> int {
    (row * width + column) * 3 + channel
}

/// Position in the normalised frame of channel `channel` of the pixel at
/// column `column` of row `row`.
pub open spec fn frame_at(width: int, row: int, column: int, channel: int) -> int {
    (row * width + column) * 4 + channel
}

/// The byte at position `i` of the normalised frame.
pub open spec fn transformed_byte(raw: Seq<u8>, width: int, height: int, i: int) -> u8 {
    let pixel = i / 4;
    let channel = i % 4;
    if channel == 3 {
        OPAQUE
    } else {
        raw[raw_at(width, height - 1 - pixel / width, pixel % width, channel)]
    }
}

/// The normalised frame of a captured frame `raw` of the given size.
pub open spec fn transformed(raw: Seq<u8>, width: nat, height: nat) -> Seq<u8> {
    Seq::new(frame_len(width, height), |i: int| transformed_byte(raw, width as int, height as int, i))
}

/// A pixel position inside a frame of the given size has a byte position
/// inside the frame, in the captured and in the normalised layout, and the
/// normalised position leads back to the pixel.
pub proof fn lemma_pixel_positions(width: int, height: int, row: int, column: int, channel: int)
    requires
        0 <= row < height,
        0 <= column < width,
        0 <= channel < 4,
    ensures
        0 <= row * width <= row * width + column < width * height,
        0 <= frame_at(width, row, column, channel) < width * height * 4,
        channel < 3 ==> 0 <= raw_at(width, row, column, channel) < width * height * 3,
        frame_at(width, row, column, channel) / 4 == row * width + column,
        frame_at(width, row, column, channel) % 4 == channel,
        (row * width + column) / width == row,
        (row * width + column) % width == column,
{
    assert(0 <= row * width && row * width + width <= height * width && height * width == width
        * height) by (nonlinear_arith)
        requires
            0 <= row < height,
            0 < width,
    ;
    lemma_fundamental_div_mod_converse(row * width + column, width, row, column);
}

/// Pixel by pixel reading of the normalised frame: the pixel at column
/// `column` of row `row` holds the three colour bytes of the captured pixel
/// at the same column of the row counted from the bottom, followed by 255.
pub proof fn lemma_transformed_pixel(
    raw: Seq<u8>,
    width: nat,
    height: nat,
    row: int,
    column: int,
    channel: int,
)
    requires
        0 <= row < height,
        0 <= column < width,
        0 <= channel < 4,
    ensures
        0 <= frame_at(width as int, row, column, channel) < transformed(raw, width, height).len(),
        transformed(raw, width, height)[frame_at(width as int, row, column, channel)] == (if channel
            == 3 {
            OPAQUE
        } else {
            raw[raw_at(width as int, height - 1 - row, column, channel)]
        }),
{
    lemma_pixel_positions(width as int, height as int, row, column, channel);
}

/// Number of bytes to reserve for the normalised frame of a captured frame
/// that fits into `available` bytes: the frame's length, or nothing where
/// the length is beyond what one allocation can hold.
fn reservation(width: usize, height: usize, available: usize) -> (bytes: usize)
    requires
        available >= width * height * 3,
    ensures
        bytes == reserved(width as nat, height as nat),
{
    assert(0 <= width * height <= width * height * 3) by (nonlinear_arith);
    let pixels = width * height;
    if pixels <= (isize::MAX as usize) / FRAME_CHANNELS {
        pixels * FRAME_CHANNELS
    } else {
        0
    }
}

/// Number of bytes that are reserved up front for the normalised frame of
/// the given size: all of the frame, unless it is longer than the largest
/// allocation, `isize::MAX` bytes, in which case nothing is reserved and the
/// frame grows as it is filled.
pub open spec fn reserved(width: nat, height: nat) -> nat {
    if frame_len(width, height) <= isize::MAX {
        frame_len(width, height)
    } else {
        0
    }
}

/// Normalises the captured frame `raw` of the mode `descriptor`: reverses the
/// order of the rows, keeps the order inside each row and appends an alpha
/// byte of 255 to every pixel.
pub fn transform(raw: &[u8], descriptor: &StreamDescriptor) -> (frame: Vec<u8>)
    requires
        raw@.len() >= raw_len(descriptor.width as nat, descriptor.height as nat),
    ensures
        frame@ == transformed(raw@, descriptor.width as nat, descriptor.height as nat),
        frame@.len() == descriptor.width * descriptor.height * 4,
        forall|column: int, channel: int|
            0 <= column < descriptor.width && 0 <= channel < 3 && descriptor.height > 0
                ==> frame@[#[trigger] frame_at(descriptor.width as int, 0, column, channel)]
                == raw@[raw_at(descriptor.width as int, descriptor.height - 1, column, channel)],
        forall|column: int|
            0 <= column < descriptor.width && descriptor.height > 0 ==> frame@[#[trigger] frame_at(
                descriptor.width as int,
                0,
                column,
                3,
            )] == OPAQUE,
{
    let width = descriptor.width as usize;
    let height = descriptor.height as usize;
    let available = raw.len();
    let ghost w = width as int;
    let ghost h = height as int;
    let mut frame: Vec<u8> = Vec::with_capacity(reservation(width, height, available));
    let mut row: usize = 0;
    while row < height
        invariant
            w == descriptor.width,
            h == descriptor.height,
            width == w,
            height == h,
            row <= height,
            available == raw@.len(),
            available >= w * h * 3,
            frame@.len() == row * w * 4,
            forall|i: int| 0 <= i < frame@.len() ==> frame@[i] == transformed_byte(raw@, w, h, i),
        decreases height - row,
    {
        let source = height - 1 - row;
        let mut column: usize = 0;
        while column < width
            invariant
                width == w,
                height == h,
                row < height,
                source == height - 1 - row,
                column <= width,
                available == raw@.len(),
                available >= w * h * 3,
                frame@.len() == (row * w + column) * 4,
                forall|i: int| 0 <= i < frame@.len() ==> frame@[i] == transformed_byte(raw@, w, h, i),
            decreases width - column,
        {
            proof {
                lemma_pixel_positions(w, h, source as int, column as int, 2);
                lemma_pixel_positions(w, h, row as int, column as int, 0);
                lemma_pixel_positions(w, h, row as int, column as int, 1);
                lemma_pixel_positions(w, h, row as int, column as int, 2);
                lemma_pixel_positions(w, h, row as int, column as int, 3);
            }
            let at = (source * width + column) * RAW_CHANNELS;
            frame.push(raw[at]);
            frame.push(raw[at + 1]);
            frame.push(raw[at + 2]);
            frame.push(OPAQUE);
            column += 1;
        }
        assert((row * w + w) * 4 == (row + 1) * w * 4) by (nonlinear_arith);
        row += 1;
    }
    proof {
        assert(frame@.len() == w * h * 4) by (nonlinear_arith)
            requires
                frame@.len() == row * w * 4,
                row == h,
        ;
        assert(frame@ =~= transformed(raw@, w as nat, h as nat));
        assert forall|column: int, channel: int|
            0 <= column < w && 0 <= channel < 4 && h > 0 implies frame@[#[trigger] frame_at(
            w,
            0,
            column,
            channel,
        )] == (if channel == 3 {
            OPAQUE
        } else {
            raw@[raw_at(w, h - 1, column, channel)]
        }) by {
            lemma_transformed_pixel(raw@, w as nat, h as nat, 0, column, channel);
        }
    }
    frame
}

} // verus!
