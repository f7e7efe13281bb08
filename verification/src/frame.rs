//! Owned frames, copied out of the capture buffers.

use crate::format::{bytes_per_pixel, spec_bytes_per_pixel, PixelFormat};
use vstd::prelude::*;

verus! {

/// One captured frame: the bytes of its first plane and the format that the
/// stream had settled on when it was taken.
#[derive(Clone, Debug)]
pub struct FrameData {
    /// Pixel bytes, row after row.
    pub data: Vec<u8>,
    /// Declared width in pixels.
    pub width: u32,
    /// Declared height in pixels.
    pub height: u32,
    /// Pixel layout.
    pub format: PixelFormat,
    /// Reading of the monotonic clock at capture, in nanoseconds.
    pub timestamp: u64,
}

/// Pixels that a frame of the given size declares.
pub open spec fn pixel_count(width: u32, height: u32) -> nat {
    (width as nat) * (height as nat)
}

/// Bytes that a full frame of the given size and layout takes.
pub open spec fn expected_size(width: u32, height: u32, format: PixelFormat) -> nat {
    pixel_count(width, height) * spec_bytes_per_pixel(format)
}

/// The shorter of what a buffer offers and what a full frame takes.
pub open spec fn copy_len(available: nat, width: u32, height: u32, format: PixelFormat) -> nat {
    if available <= expected_size(width, height, format) {
        available
    } else {
        expected_size(width, height, format)
    }
}

/// Counts the pixels that a frame of the given size declares.
pub fn count_pixels(width: u32, height: u32) -> (n: u64)
    ensures
        n as nat == pixel_count(width, height),
{
    assert((width as nat) * (height as nat) <= 0xFFFF_FFFF * 0xFFFF_FFFF) by (nonlinear_arith)
        requires
            width <= 0xFFFF_FFFF,
            height <= 0xFFFF_FFFF,
    ;
    (width as u64) * (height as u64)
}

/// Computes the bytes that a full frame of the given size and layout takes.
pub fn full_frame_size(width: u32, height: u32, format: PixelFormat) -> (n: u128)
    ensures
        n as nat == expected_size(width, height, format),
{
    let pixels: u64 = count_pixels(width, height);
    let per_pixel: u8 = bytes_per_pixel(format);
    assert((pixels as nat) * (per_pixel as nat) <= 0xFFFF_FFFF_FFFF_FFFF * 4) by (nonlinear_arith)
        requires
            pixels <= 0xFFFF_FFFF_FFFF_FFFF,
            per_pixel <= 4,
    ;
    (pixels as u128) * (per_pixel as u128)
}

impl FrameData {
    /// The frame holds no more bytes than its size and layout call for.
    pub open spec fn is_clamped(&self) -> bool {
        self.data@.len() <= expected_size(self.width, self.height, self.format)
    }

    /// Copies the leading bytes of `plane`, at most a full frame of them,
    /// into a frame of its own.
    pub fn copy_from_plane(
        plane: &[u8],
        width: u32,
        height: u32,
        format: PixelFormat,
        timestamp: u64,
    ) -> (frame: FrameData)
        ensures
            frame.data@ == plane@.take(
                copy_len(plane@.len(), width, height, format) as int,
            ),
            frame.width == width,
            frame.height == height,
            frame.format == format,
            frame.timestamp == timestamp,
            frame.is_clamped(),
    {
        let expected: u128 = full_frame_size(width, height, format);
        let available: usize = plane.len();
        let len: usize = if (available as u128) <= expected {
            available
        } else {
            expected as usize
        };
        let mut data: Vec<u8> = Vec::with_capacity(len);
        let mut i: usize = 0;
        while i < len
            invariant
                i <= len <= plane@.len(),
                data@ == plane@.take(i as int),
            decreases len - i,
        {
            data.push(plane[i]);
            i += 1;
            assert(data@ =~= plane@.take(i as int));
        }
        FrameData { data, width, height, format, timestamp }
    }
}

} // verus!
