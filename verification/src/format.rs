//! Pixel layouts that a capture stream can settle on.

use vstd::prelude::*;

verus! {

/// The pixel layout of a frame.
#[derive(Clone, Copy, Debug, PartialEq, Eq, Structural)]
pub enum PixelFormat {
    /// 24-bit, red first.
    Rgb,
    /// 32-bit, red first, with alpha.
    Rgba,
    /// 32-bit, red first, fourth byte unused.
    Rgbx,
    /// 32-bit, blue first, fourth byte unused.
    Bgrx,
    /// Packed YUV 4:2:2.
    Yuy2,
    /// Planar YUV 4:2:0.
    I420,
    /// Any layout this library does not interpret.
    Other,
}

/// Bytes that one pixel takes in a frame's first plane.
pub open spec fn spec_bytes_per_pixel(format: PixelFormat) -> nat {
    match format {
        PixelFormat::Rgb => 3,
        PixelFormat::Rgba | PixelFormat::Rgbx | PixelFormat::Bgrx => 4,
        PixelFormat::Yuy2 => 2,
        PixelFormat::I420 => 1,
        PixelFormat::Other => 4,
    }
}

/// Bytes that one pixel takes in a frame's first plane; a layout that is
/// not interpreted counts as four, the safe upper bound.
pub fn bytes_per_pixel(format: PixelFormat) -> (n: u8)
    ensures
        n as nat == spec_bytes_per_pixel(format),
        1 <= n <= 4,
{
    match format {
        PixelFormat::Rgb => 3,
        PixelFormat::Rgba => 4,
        PixelFormat::Rgbx => 4,
        PixelFormat::Bgrx => 4,
        PixelFormat::Yuy2 => 2,
        PixelFormat::I420 => 1,
        PixelFormat::Other => 4,
    }
}

/// Where the colour channels of one pixel lie, for the layouts whose bytes
/// are read as red, green and blue.
#[derive(Clone, Copy, Debug, PartialEq, Eq, Structural)]
pub struct ChannelLayout {
    /// Bytes from one pixel to the next.
    pub stride: u8,
    /// Offset of the red byte within a pixel.
    pub red: u8,
    /// Offset of the green byte within a pixel.
    pub green: u8,
    /// Offset of the blue byte within a pixel.
    pub blue: u8,
}

impl ChannelLayout {
    /// Every channel lies inside the pixel, and a pixel is three or four bytes.
    pub open spec fn wf(self) -> bool {
        &&& 3 <= self.stride <= 4
        &&& self.red < self.stride
        &&& self.green < self.stride
        &&& self.blue < self.stride
    }
}

/// The channel order of each layout: the red-first layouts, the blue-first
/// one, and none for the YUV layouts and for layouts that are not interpreted.
pub open spec fn spec_channel_layout(format: PixelFormat) -> Option<ChannelLayout> {
    match format {
        PixelFormat::Rgb => Some(ChannelLayout { stride: 3, red: 0, green: 1, blue: 2 }),
        PixelFormat::Rgba | PixelFormat::Rgbx => Some(
            ChannelLayout { stride: 4, red: 0, green: 1, blue: 2 },
        ),
        PixelFormat::Bgrx => Some(ChannelLayout { stride: 4, red: 2, green: 1, blue: 0 }),
        PixelFormat::Yuy2 | PixelFormat::I420 | PixelFormat::Other => None,
    }
}

/// Looks up the channel order of a layout.
pub fn channel_layout(format: PixelFormat) -> (layout: Option<ChannelLayout>)
    ensures
        layout == spec_channel_layout(format),
        layout matches Some(l) ==> l.wf() && l.stride as nat == spec_bytes_per_pixel(format),
{
    match format {
        PixelFormat::Rgb => Some(ChannelLayout { stride: 3, red: 0, green: 1, blue: 2 }),
        PixelFormat::Rgba => Some(ChannelLayout { stride: 4, red: 0, green: 1, blue: 2 }),
        PixelFormat::Rgbx => Some(ChannelLayout { stride: 4, red: 0, green: 1, blue: 2 }),
        PixelFormat::Bgrx => Some(ChannelLayout { stride: 4, red: 2, green: 1, blue: 0 }),
        PixelFormat::Yuy2 => None,
        PixelFormat::I420 => None,
        PixelFormat::Other => None,
    }
}

/// The format that a stream has settled on. It holds for every frame of the
/// stream.
#[derive(Clone, Copy, Debug, PartialEq, Eq, Structural)]
pub struct NegotiatedFormat {
    /// Pixel layout.
    pub format: PixelFormat,
    /// Frame width in pixels.
    pub width: u32,
    /// Frame height in pixels.
    pub height: u32,
}

/// A frame size in pixels.
#[derive(Clone, Copy, Debug, PartialEq, Eq, Structural)]
pub struct Resolution {
    /// Width in pixels.
    pub width: u32,
    /// Height in pixels.
    pub height: u32,
}

/// A frame rate as a fraction, in frames per second.
#[derive(Clone, Copy, Debug, PartialEq, Eq, Structural)]
pub struct FrameRate {
    /// Numerator.
    pub num: u32,
    /// Denominator.
    pub denom: u32,
}

/// The sizes and rates that are offered to the media server: for each, the
/// one asked for first and the least and the most that is acceptable.
#[derive(Clone, Copy, Debug, PartialEq, Eq, Structural)]
pub struct OfferedRanges {
    /// Size asked for first.
    pub preferred_size: Resolution,
    /// Smallest acceptable size.
    pub min_size: Resolution,
    /// Largest acceptable size.
    pub max_size: Resolution,
    /// Rate asked for first.
    pub preferred_rate: FrameRate,
    /// Lowest acceptable rate.
    pub min_rate: FrameRate,
    /// Highest acceptable rate.
    pub max_rate: FrameRate,
}

/// The layouts that are offered, the most welcome first: those with a
/// channel order, then the YUV layouts.
pub open spec fn spec_offered_formats() -> Seq<PixelFormat> {
    seq![
        PixelFormat::Bgrx,
        PixelFormat::Rgbx,
        PixelFormat::Rgb,
        PixelFormat::Rgba,
        PixelFormat::Yuy2,
        PixelFormat::I420,
    ]
}

/// The layouts to offer, the most welcome first.
pub fn offered_formats() -> (formats: Vec<PixelFormat>)
    ensures
        formats@ == spec_offered_formats(),
{
    let mut formats: Vec<PixelFormat> = Vec::new();
    formats.push(PixelFormat::Bgrx);
    formats.push(PixelFormat::Rgbx);
    formats.push(PixelFormat::Rgb);
    formats.push(PixelFormat::Rgba);
    formats.push(PixelFormat::Yuy2);
    formats.push(PixelFormat::I420);
    assert(formats@ =~= spec_offered_formats());
    formats
}

/// Full HD first, between 320 by 240 and 4096 by 4096; one frame a second
/// first, up to sixty. A low rate is enough, as frames are throttled anyway.
pub open spec fn spec_offered_ranges() -> OfferedRanges {
    OfferedRanges {
        preferred_size: Resolution { width: 1920, height: 1080 },
        min_size: Resolution { width: 320, height: 240 },
        max_size: Resolution { width: 4096, height: 4096 },
        preferred_rate: FrameRate { num: 1, denom: 1 },
        min_rate: FrameRate { num: 0, denom: 1 },
        max_rate: FrameRate { num: 60, denom: 1 },
    }
}

/// The sizes and rates to offer.
pub fn offered_ranges() -> (ranges: OfferedRanges)
    ensures
        ranges == spec_offered_ranges(),
{
    OfferedRanges {
        preferred_size: Resolution { width: 1920, height: 1080 },
        min_size: Resolution { width: 320, height: 240 },
        max_size: Resolution { width: 4096, height: 4096 },
        preferred_rate: FrameRate { num: 1, denom: 1 },
        min_rate: FrameRate { num: 0, denom: 1 },
        max_rate: FrameRate { num: 60, denom: 1 },
    }
}

} // verus!
