//! Brightness, blue cast and ambient light of a frame.
//!
//! All measures are fixed-point integers. Brightness and blue intensity are
//! in thousandths of a level on the 0 to 255 scale; the ambient estimate is
//! in millionths of full scale. Every division rounds down.

use crate::format::{channel_layout, spec_channel_layout, ChannelLayout, PixelFormat};
use crate::frame::{count_pixels, pixel_count, FrameData};
use vstd::prelude::*;

verus! {

/// Thousandths of a level that stand for the brightest value, 255.
pub const FULL_SCALE_MILLI: u32 = 255_000;

/// Millionths that stand for one.
pub const PPM_ONE: u32 = 1_000_000;

/// The ambient estimate of a frame without bytes: one half.
pub const AMBIENT_UNKNOWN_PPM: u32 = 500_000;

/// Pixels, from the start of the frame, that the contrast term looks at.
pub const CONTRAST_SAMPLES: u64 = 1000;

/// Variance, in squared levels, at which the contrast term saturates.
pub const VARIANCE_SCALE: u64 = 10_000;

/// What one frame says about the light on the screen.
#[derive(Clone, Copy, Debug, PartialEq, Eq, Structural)]
pub struct FrameAnalysis {
    /// Mean brightness, in thousandths of a level (0 to 255 000).
    pub brightness_milli: u32,
    /// Mean of the blue channel, in thousandths of a level (0 to 255 000).
    pub blue_milli: u32,
    /// Ambient light estimate, in millionths (0 to 1 000 000).
    pub ambient_ppm: u32,
    /// Milliseconds between the capture and the analysis.
    pub age_ms: u64,
    /// Bytes that the frame held.
    pub frame_size: usize,
}

/// Integer luma of one pixel: the weighted channel sum over a thousand.
pub open spec fn luma(r: u8, g: u8, b: u8) -> nat {
    ((299 * (r as nat) + 587 * (g as nat) + 114 * (b as nat)) / 1000) as nat
}

/// Luma of pixel `i` of a frame with the given channel order.
pub open spec fn pixel_luma(data: Seq<u8>, layout: ChannelLayout, i: int) -> nat {
    let base = i * (layout.stride as int);
    luma(data[base + layout.red], data[base + layout.green], data[base + layout.blue])
}

/// Blue byte of pixel `i` of a frame with the given channel order.
pub open spec fn pixel_blue(data: Seq<u8>, layout: ChannelLayout, i: int) -> nat {
    data[i * (layout.stride as int) + layout.blue] as nat
}

/// Sum of the luma of the first `n` pixels.
pub open spec fn luma_sum(data: Seq<u8>, layout: ChannelLayout, n: nat) -> nat
    decreases n,
{
    if n == 0 {
        0
    } else {
        luma_sum(data, layout, (n - 1) as nat) + pixel_luma(data, layout, n - 1)
    }
}

/// Sum of the blue bytes of the first `n` pixels.
pub open spec fn blue_sum(data: Seq<u8>, layout: ChannelLayout, n: nat) -> nat
    decreases n,
{
    if n == 0 {
        0
    } else {
        blue_sum(data, layout, (n - 1) as nat) + pixel_blue(data, layout, n - 1)
    }
}

/// Sum of the first `n` bytes.
pub open spec fn byte_sum(data: Seq<u8>, n: nat) -> nat
    decreases n,
{
    if n == 0 {
        0
    } else {
        byte_sum(data, (n - 1) as nat) + data[n - 1] as nat
    }
}

/// The mean of `count` values that add up to `sum`, in thousandths; zero
/// where there is nothing to average.
pub open spec fn mean_milli(sum: nat, count: nat) -> nat {
    if count == 0 {
        0
    } else {
        (1000 * sum) / count
    }
}

/// The buffer holds every pixel that the frame declares.
pub open spec fn covers(len: nat, pixels: nat, layout: ChannelLayout) -> bool {
    (pixels as int) * (layout.stride as int) <= len
}

/// Mean of all bytes, each taken as a brightness sample, in thousandths.
pub open spec fn byte_average_milli(data: Seq<u8>) -> nat {
    mean_milli(byte_sum(data, data.len()), data.len())
}

/// Mean brightness in thousandths of a level.
///
/// For a layout with a channel order and a buffer that holds every declared
/// pixel, the mean luma of those pixels. Otherwise the mean of all bytes.
pub open spec fn brightness_milli(
    data: Seq<u8>,
    width: u32,
    height: u32,
    format: PixelFormat,
) -> nat {
    let pixels = pixel_count(width, height);
    match spec_channel_layout(format) {
        Some(layout) => if covers(data.len(), pixels, layout) {
            mean_milli(luma_sum(data, layout, pixels), pixels)
        } else {
            byte_average_milli(data)
        },
        None => byte_average_milli(data),
    }
}

/// Mean of the blue channel in thousandths of a level; zero for a layout
/// without a channel order and for a buffer that is short of the declared
/// pixels.
pub open spec fn blue_intensity_milli(
    data: Seq<u8>,
    width: u32,
    height: u32,
    format: PixelFormat,
) -> nat {
    let pixels = pixel_count(width, height);
    match spec_channel_layout(format) {
        Some(layout) => if covers(data.len(), pixels, layout) {
            mean_milli(blue_sum(data, layout, pixels), pixels)
        } else {
            0
        },
        None => 0,
    }
}

/// Squared distance of pixel `i`'s luma from the mean, in millionths of a
/// squared level.
pub open spec fn squared_deviation(
    data: Seq<u8>,
    layout: ChannelLayout,
    mean: nat,
    i: int,
) -> nat {
    let d = 1000 * pixel_luma(data, layout, i) - mean;
    (d * d) as nat
}

/// Sum of the squared deviations of the first `n` pixels.
pub open spec fn squared_deviation_sum(
    data: Seq<u8>,
    layout: ChannelLayout,
    mean: nat,
    n: nat,
) -> nat
    decreases n,
{
    if n == 0 {
        0
    } else {
        squared_deviation_sum(data, layout, mean, (n - 1) as nat) + squared_deviation(
            data,
            layout,
            mean,
            n - 1,
        )
    }
}

/// Pixels that the contrast term looks at: all of them, up to the cap.
pub open spec fn contrast_samples(pixels: nat) -> nat {
    if pixels <= CONTRAST_SAMPLES {
        pixels
    } else {
        CONTRAST_SAMPLES as nat
    }
}

/// Brightness as a share of full scale, in millionths.
pub open spec fn normalized_ppm(brightness: nat) -> nat {
    (brightness * 1000) / 255
}

/// The contrast factor in millionths: the variance of the samples over the
/// variance scale, at most one; zero where there are no samples.
pub open spec fn contrast_ppm(deviation_sum: nat, samples: nat) -> nat {
    if samples == 0 {
        0
    } else {
        let scaled = (deviation_sum / samples) / (VARIANCE_SCALE as nat);
        if scaled <= PPM_ONE {
            scaled
        } else {
            PPM_ONE as nat
        }
    }
}

/// Seven parts normalised brightness and three parts contrast, at most one.
pub open spec fn blend_ppm(normalized: nat, contrast: nat) -> nat {
    let blended = (7 * normalized + 3 * contrast) / 10;
    if blended <= PPM_ONE {
        blended
    } else {
        PPM_ONE as nat
    }
}

/// Ambient light estimate in millionths.
///
/// One half for a frame without bytes. For a layout without a channel order,
/// the normalised brightness alone. Otherwise the blend of the normalised
/// brightness with the contrast of the leading pixels; the contrast counts
/// as zero where the buffer is short of the declared pixels.
pub open spec fn ambient_ppm(data: Seq<u8>, width: u32, height: u32, format: PixelFormat) -> nat {
    if data.len() == 0 {
        AMBIENT_UNKNOWN_PPM as nat
    } else {
        let mean = brightness_milli(data, width, height, format);
        let pixels = pixel_count(width, height);
        let samples = contrast_samples(pixels);
        match spec_channel_layout(format) {
            Some(layout) => {
                let deviation_sum = if covers(data.len(), pixels, layout) {
                    squared_deviation_sum(data, layout, mean, samples)
                } else {
                    0
                };
                blend_ppm(normalized_ppm(mean), contrast_ppm(deviation_sum, samples))
            },
            None => normalized_ppm(mean),
        }
    }
}

/// Milliseconds from `timestamp` to `now`, both in nanoseconds; zero where
/// the clock reading lies before the capture.
pub open spec fn age_ms(timestamp: u64, now: u64) -> nat {
    if now <= timestamp {
        0
    } else {
        ((now - timestamp) / 1_000_000) as nat
    }
}

/// What the analysis of `frame` at time `now` is.
pub open spec fn analysis_of(frame: FrameData, now: u64) -> FrameAnalysis {
    FrameAnalysis {
        brightness_milli: brightness_milli(
            frame.data@,
            frame.width,
            frame.height,
            frame.format,
        ) as u32,
        blue_milli: blue_intensity_milli(
            frame.data@,
            frame.width,
            frame.height,
            frame.format,
        ) as u32,
        ambient_ppm: ambient_ppm(frame.data@, frame.width, frame.height, frame.format) as u32,
        age_ms: age_ms(frame.timestamp, now) as u64,
        frame_size: frame.data@.len() as usize,
    }
}

impl FrameAnalysis {
    /// Every measure lies on its scale.
    pub open spec fn in_range(self) -> bool {
        &&& self.brightness_milli <= FULL_SCALE_MILLI
        &&& self.blue_milli <= FULL_SCALE_MILLI
        &&& self.ambient_ppm <= PPM_ONE
    }
}

/// Pixel `i` of `pixels` lies inside a buffer that holds them all.
proof fn lemma_pixel_fits(i: int, pixels: int, stride: int, len: int)
    by (nonlinear_arith)
    requires
        0 <= i < pixels,
        0 <= stride,
        pixels * stride <= len,
    ensures
        0 <= i * stride,
        i * stride + stride <= len,
        (i + 1) * stride == i * stride + stride,
{
}

/// A buffer that holds `pixels` pixels holds any smaller number of them.
proof fn lemma_covers_fewer(len: nat, samples: nat, pixels: nat, layout: ChannelLayout)
    requires
        samples <= pixels,
        covers(len, pixels, layout),
    ensures
        covers(len, samples, layout),
{
    assert((samples as int) * (layout.stride as int) <= (pixels as int) * (layout.stride as int))
        by (nonlinear_arith)
        requires
            samples <= pixels,
    ;
}

/// Computes the integer luma of one pixel.
pub fn luma_of(r: u8, g: u8, b: u8) -> (l: u8)
    ensures
        l as nat == luma(r, g, b),
{
    let weighted: u32 = 299 * (r as u32) + 587 * (g as u32) + 114 * (b as u32);
    (weighted / 1000) as u8
}

/// Tells whether a buffer of `len` bytes holds `pixels` pixels.
fn buffer_covers(len: usize, pixels: u64, layout: ChannelLayout) -> (b: bool)
    requires
        layout.wf(),
    ensures
        b == covers(len as nat, pixels as nat, layout),
{
    let stride: u8 = layout.stride;
    assert(0 <= (pixels as int) * (stride as int) <= 0xFFFF_FFFF_FFFF_FFFF * 4)
        by (nonlinear_arith)
        requires
            pixels <= 0xFFFF_FFFF_FFFF_FFFF,
            stride <= 4,
    ;
    (pixels as u128) * (stride as u128) <= len as u128
}

/// Divides a sum of byte-sized values by their number, in thousandths.
fn mean_in_milli(sum: u128, count: u64) -> (m: u32)
    requires
        sum <= 255 * count,
    ensures
        m as nat == mean_milli(sum as nat, count as nat),
        m <= FULL_SCALE_MILLI,
{
    if count == 0 {
        0
    } else {
        let scaled: u128 = 1000 * sum;
        let quotient: u128 = scaled / (count as u128);
        assert(quotient <= 255_000) by (nonlinear_arith)
            requires
                scaled <= 255_000 * count,
                count > 0,
                quotient == scaled / (count as u128),
        ;
        quotient as u32
    }
}

/// Adds up the luma of the first `pixels` pixels.
fn sum_luma(data: &[u8], layout: ChannelLayout, pixels: u64) -> (sum: u128)
    requires
        layout.wf(),
        covers(data@.len(), pixels as nat, layout),
    ensures
        sum as nat == luma_sum(data@, layout, pixels as nat),
        sum <= 255 * pixels,
{
    let stride: usize = layout.stride as usize;
    let len: usize = data.len();
    let mut sum: u128 = 0;
    let mut base: usize = 0;
    let mut i: u64 = 0;
    while i < pixels
        invariant
            layout.wf(),
            stride == layout.stride,
            len == data@.len(),
            covers(data@.len(), pixels as nat, layout),
            i <= pixels,
            base as int == (i as int) * (layout.stride as int),
            sum as nat == luma_sum(data@, layout, i as nat),
            sum <= 255 * i,
        decreases pixels - i,
    {
        proof {
            lemma_pixel_fits(i as int, pixels as int, layout.stride as int, data@.len() as int);
        }
        let r: u8 = data[base + layout.red as usize];
        let g: u8 = data[base + layout.green as usize];
        let b: u8 = data[base + layout.blue as usize];
        sum = sum + luma_of(r, g, b) as u128;
        base = base + stride;
        i = i + 1;
    }
    sum
}

/// Adds up the blue bytes of the first `pixels` pixels.
fn sum_blue(data: &[u8], layout: ChannelLayout, pixels: u64) -> (sum: u128)
    requires
        layout.wf(),
        covers(data@.len(), pixels as nat, layout),
    ensures
        sum as nat == blue_sum(data@, layout, pixels as nat),
        sum <= 255 * pixels,
{
    let stride: usize = layout.stride as usize;
    let len: usize = data.len();
    let mut sum: u128 = 0;
    let mut base: usize = 0;
    let mut i: u64 = 0;
    while i < pixels
        invariant
            layout.wf(),
            stride == layout.stride,
            len == data@.len(),
            covers(data@.len(), pixels as nat, layout),
            i <= pixels,
            base as int == (i as int) * (layout.stride as int),
            sum as nat == blue_sum(data@, layout, i as nat),
            sum <= 255 * i,
        decreases pixels - i,
    {
        proof {
            lemma_pixel_fits(i as int, pixels as int, layout.stride as int, data@.len() as int);
        }
        sum = sum + data[base + layout.blue as usize] as u128;
        base = base + stride;
        i = i + 1;
    }
    sum
}

/// Adds up all bytes.
fn sum_bytes(data: &[u8]) -> (sum: u128)
    ensures
        sum as nat == byte_sum(data@, data@.len()),
        sum <= 255 * data@.len(),
{
    let mut sum: u128 = 0;
    let mut i: usize = 0;
    while i < data.len()
        invariant
            i <= data@.len(),
            sum as nat == byte_sum(data@, i as nat),
            sum <= 255 * i,
        decreases data@.len() - i,
    {
        sum = sum + data[i] as u128;
        i = i + 1;
    }
    sum
}

/// Adds up the squared deviations of the first `samples` pixels from `mean`.
fn sum_squared_deviation(data: &[u8], layout: ChannelLayout, mean: u32, samples: u64) -> (sum: u64)
    requires
        layout.wf(),
        covers(data@.len(), samples as nat, layout),
        samples <= CONTRAST_SAMPLES,
        mean <= FULL_SCALE_MILLI,
    ensures
        sum as nat == squared_deviation_sum(data@, layout, mean as nat, samples as nat),
{
    let stride: usize = layout.stride as usize;
    let len: usize = data.len();
    let mut sum: u64 = 0;
    let mut base: usize = 0;
    let mut i: u64 = 0;
    while i < samples
        invariant
            layout.wf(),
            stride == layout.stride,
            len == data@.len(),
            covers(data@.len(), samples as nat, layout),
            samples <= CONTRAST_SAMPLES,
            mean <= FULL_SCALE_MILLI,
            i <= samples,
            base as int == (i as int) * (layout.stride as int),
            sum as nat == squared_deviation_sum(data@, layout, mean as nat, i as nat),
            sum <= 65_025_000_000 * i,
        decreases samples - i,
    {
        proof {
            lemma_pixel_fits(i as int, samples as int, layout.stride as int, data@.len() as int);
        }
        let r: u8 = data[base + layout.red as usize];
        let g: u8 = data[base + layout.green as usize];
        let b: u8 = data[base + layout.blue as usize];
        let level: u64 = 1000 * (luma_of(r, g, b) as u64);
        let distance: u64 = if level >= mean as u64 {
            level - mean as u64
        } else {
            mean as u64 - level
        };
        assert(distance * distance <= 65_025_000_000 && distance * distance == (level - mean) * (
            level - mean)) by (nonlinear_arith)
            requires
                distance <= 255_000,
                distance == level - mean || distance == mean - level,
        ;
        sum = sum + distance * distance;
        base = base + stride;
        i = i + 1;
    }
    sum
}

/// Mean brightness of a frame, in thousandths of a level.
///
/// The mean luma of the declared pixels, read in the layout's channel order.
/// Where the layout has no channel order, or the buffer is short of the
/// declared pixels, every byte counts as one brightness sample.
pub fn calculate_average_brightness(frame: &FrameData) -> (milli: u32)
    ensures
        milli as nat == brightness_milli(frame.data@, frame.width, frame.height, frame.format),
        milli <= FULL_SCALE_MILLI,
{
    let data: &[u8] = frame.data.as_slice();
    let pixels: u64 = count_pixels(frame.width, frame.height);
    match channel_layout(frame.format) {
        Some(layout) => {
            if buffer_covers(data.len(), pixels, layout) {
                mean_in_milli(sum_luma(data, layout, pixels), pixels)
            } else {
                mean_in_milli(sum_bytes(data), data.len() as u64)
            }
        },
        None => mean_in_milli(sum_bytes(data), data.len() as u64),
    }
}

/// Mean of a frame's blue channel, in thousandths of a level.
///
/// Zero where the layout has no channel order and where the buffer is short
/// of the declared pixels.
pub fn calculate_blue_intensity(frame: &FrameData) -> (milli: u32)
    ensures
        milli as nat == blue_intensity_milli(
            frame.data@,
            frame.width,
            frame.height,
            frame.format,
        ),
        milli <= FULL_SCALE_MILLI,
{
    let data: &[u8] = frame.data.as_slice();
    let pixels: u64 = count_pixels(frame.width, frame.height);
    match channel_layout(frame.format) {
        Some(layout) => {
            if buffer_covers(data.len(), pixels, layout) {
                mean_in_milli(sum_blue(data, layout, pixels), pixels)
            } else {
                0
            }
        },
        None => 0,
    }
}

/// Computes the contrast factor from the summed squared deviations.
fn contrast_of(deviation_sum: u64, samples: u64) -> (ppm: u32)
    ensures
        ppm as nat == contrast_ppm(deviation_sum as nat, samples as nat),
        ppm <= PPM_ONE,
{
    if samples == 0 {
        0
    } else {
        let scaled: u64 = (deviation_sum / samples) / VARIANCE_SCALE;
        if scaled <= PPM_ONE as u64 {
            scaled as u32
        } else {
            PPM_ONE
        }
    }
}

/// Blends normalised brightness and contrast.
fn blend(normalized: u32, contrast: u32) -> (ppm: u32)
    ensures
        ppm as nat == blend_ppm(normalized as nat, contrast as nat),
        ppm <= PPM_ONE,
{
    let blended: u64 = (7 * (normalized as u64) + 3 * (contrast as u64)) / 10;
    if blended <= PPM_ONE as u64 {
        blended as u32
    } else {
        PPM_ONE
    }
}

/// Ambient light estimate of a frame, in millionths.
///
/// Blends the normalised brightness with the contrast among the leading
/// pixels, so that the cost does not grow with the resolution.
pub fn estimate_ambient_light_level(frame: &FrameData) -> (ppm: u32)
    ensures
        ppm as nat == ambient_ppm(frame.data@, frame.width, frame.height, frame.format),
        ppm <= PPM_ONE,
{
    let data: &[u8] = frame.data.as_slice();
    if data.len() == 0 {
        return AMBIENT_UNKNOWN_PPM;
    }
    let mean: u32 = calculate_average_brightness(frame);
    let normalized: u32 = ((mean as u64 * 1000) / 255) as u32;
    match channel_layout(frame.format) {
        Some(layout) => {
            let pixels: u64 = count_pixels(frame.width, frame.height);
            let samples: u64 = if pixels <= CONTRAST_SAMPLES {
                pixels
            } else {
                CONTRAST_SAMPLES
            };
            let deviation_sum: u64 = if buffer_covers(data.len(), pixels, layout) {
                proof {
                    lemma_covers_fewer(data@.len(), samples as nat, pixels as nat, layout);
                }
                sum_squared_deviation(data, layout, mean, samples)
            } else {
                0
            };
            blend(normalized, contrast_of(deviation_sum, samples))
        },
        None => normalized,
    }
}

/// Analyses a frame at the clock reading `now`, in nanoseconds.
///
/// The result depends on nothing but the frame and `now`.
pub fn analyze_frame_for_nightlight(frame: &FrameData, now: u64) -> (analysis: FrameAnalysis)
    ensures
        analysis == analysis_of(*frame, now),
        analysis.in_range(),
{
    let elapsed: u64 = if now <= frame.timestamp {
        0
    } else {
        (now - frame.timestamp) / 1_000_000
    };
    FrameAnalysis {
        brightness_milli: calculate_average_brightness(frame),
        blue_milli: calculate_blue_intensity(frame),
        ambient_ppm: estimate_ambient_light_level(frame),
        age_ms: elapsed,
        frame_size: frame.data.len(),
    }
}

/// Every byte is zero.
pub open spec fn all_black(data: Seq<u8>) -> bool {
    forall|i: int| 0 <= i < data.len() ==> data[i] == 0
}

/// The pixels of a black buffer add up to nothing, and none of them
/// deviates from a mean of zero.
proof fn lemma_black_pixels(data: Seq<u8>, layout: ChannelLayout, n: nat)
    requires
        all_black(data),
        layout.wf(),
        covers(data.len(), n, layout),
    ensures
        luma_sum(data, layout, n) == 0,
        blue_sum(data, layout, n) == 0,
        squared_deviation_sum(data, layout, 0, n) == 0,
    decreases n,
{
    if n > 0 {
        lemma_covers_fewer(data.len(), (n - 1) as nat, n, layout);
        lemma_black_pixels(data, layout, (n - 1) as nat);
        lemma_pixel_fits(n - 1, n as int, layout.stride as int, data.len() as int);
        let base = (n - 1) * (layout.stride as int);
        assert(data[base + layout.red] == 0);
        assert(data[base + layout.green] == 0);
        assert(data[base + layout.blue] == 0);
        assert(pixel_luma(data, layout, n - 1) == 0);
        assert(pixel_blue(data, layout, n - 1) == 0);
        let d: int = 1000 * pixel_luma(data, layout, n - 1) - 0;
        assert(d * d == 0) by (nonlinear_arith)
            requires
                d == 0,
        ;
        assert(squared_deviation(data, layout, 0, n - 1) == 0);
    }
}

/// The bytes of a black buffer add up to nothing.
proof fn lemma_black_bytes(data: Seq<u8>, n: nat)
    requires
        all_black(data),
        n <= data.len(),
    ensures
        byte_sum(data, n) == 0,
    decreases n,
{
    if n > 0 {
        lemma_black_bytes(data, (n - 1) as nat);
    }
}

/// The mean of values that add up to nothing is zero.
proof fn lemma_mean_of_nothing(count: nat)
    ensures
        mean_milli(0, count) == 0,
{
    if count > 0 {
        assert((1000 * 0nat) / count == 0) by (nonlinear_arith)
            requires
                count > 0,
        ;
    }
}

/// A black frame is dark in every measure.
///
/// For a buffer that holds at least one byte and only zeros, whatever the
/// declared size and the layout, brightness, blue intensity and the ambient
/// estimate are all zero.
pub proof fn lemma_black_frame(data: Seq<u8>, width: u32, height: u32, format: PixelFormat)
    requires
        data.len() > 0,
        all_black(data),
    ensures
        brightness_milli(data, width, height, format) == 0,
        blue_intensity_milli(data, width, height, format) == 0,
        ambient_ppm(data, width, height, format) == 0,
{
    let pixels = pixel_count(width, height);
    let samples = contrast_samples(pixels);
    lemma_black_bytes(data, data.len());
    lemma_mean_of_nothing(data.len());
    lemma_mean_of_nothing(pixels);
    assert(normalized_ppm(0) == 0);
    match spec_channel_layout(format) {
        Some(layout) => {
            assert(layout.wf());
            if covers(data.len(), pixels, layout) {
                lemma_black_pixels(data, layout, pixels);
                lemma_covers_fewer(data.len(), samples, pixels, layout);
                lemma_black_pixels(data, layout, samples);
            }
            if samples > 0 {
                assert(0nat / samples == 0) by (nonlinear_arith)
                    requires
                        samples > 0,
                ;
            }
            assert(contrast_ppm(0, samples) == 0);
            assert(blend_ppm(0, 0) == 0);
        },
        None => {},
    }
}

/// The analysis rests on a frame's content alone.
///
/// Two frames with the same bytes, size, layout and capture time have the
/// same analysis at the same clock reading, so analysing a frame again
/// gives the same result.
pub proof fn lemma_analysis_is_determined(a: FrameData, b: FrameData, now: u64)
    requires
        a.data@ == b.data@,
        a.width == b.width,
        a.height == b.height,
        a.format == b.format,
        a.timestamp == b.timestamp,
    ensures
        analysis_of(a, now) == analysis_of(b, now),
{
}

/// Brightness lies on its scale for every buffer, also one that is short
/// of the declared pixels or of any other length.
pub proof fn lemma_brightness_in_range(data: Seq<u8>, width: u32, height: u32, format: PixelFormat)
    ensures
        0 <= brightness_milli(data, width, height, format) <= FULL_SCALE_MILLI,
{
    let pixels = pixel_count(width, height);
    lemma_byte_sum_bound(data, data.len());
    lemma_mean_bound(byte_sum(data, data.len()), data.len());
    match spec_channel_layout(format) {
        Some(layout) => {
            if covers(data.len(), pixels, layout) {
                lemma_luma_sum_bound(data, layout, pixels);
                lemma_mean_bound(luma_sum(data, layout, pixels), pixels);
            }
        },
        None => {},
    }
}

/// Every measure of an analysis lies on its scale, whatever the frame
/// holds, so none is cut off when it is stored.
pub proof fn lemma_analysis_in_range(frame: FrameData, now: u64)
    ensures
        analysis_of(frame, now).in_range(),
        analysis_of(frame, now).brightness_milli == brightness_milli(
            frame.data@,
            frame.width,
            frame.height,
            frame.format,
        ),
        analysis_of(frame, now).blue_milli == blue_intensity_milli(
            frame.data@,
            frame.width,
            frame.height,
            frame.format,
        ),
        analysis_of(frame, now).ambient_ppm == ambient_ppm(
            frame.data@,
            frame.width,
            frame.height,
            frame.format,
        ),
{
    let data = frame.data@;
    let pixels = pixel_count(frame.width, frame.height);
    lemma_brightness_in_range(data, frame.width, frame.height, frame.format);
    match spec_channel_layout(frame.format) {
        Some(layout) => {
            if covers(data.len(), pixels, layout) {
                lemma_blue_sum_bound(data, layout, pixels);
                lemma_mean_bound(blue_sum(data, layout, pixels), pixels);
            }
        },
        None => {},
    }
}

/// A sum of blue bytes is at most 255 times their number.
proof fn lemma_blue_sum_bound(data: Seq<u8>, layout: ChannelLayout, n: nat)
    ensures
        blue_sum(data, layout, n) <= 255 * n,
    decreases n,
{
    if n > 0 {
        lemma_blue_sum_bound(data, layout, (n - 1) as nat);
    }
}

/// A sum of bytes is at most 255 times their number.
proof fn lemma_byte_sum_bound(data: Seq<u8>, n: nat)
    ensures
        byte_sum(data, n) <= 255 * n,
    decreases n,
{
    if n > 0 {
        lemma_byte_sum_bound(data, (n - 1) as nat);
    }
}

/// A sum of lumas is at most 255 times their number.
proof fn lemma_luma_sum_bound(data: Seq<u8>, layout: ChannelLayout, n: nat)
    ensures
        luma_sum(data, layout, n) <= 255 * n,
    decreases n,
{
    if n > 0 {
        lemma_luma_sum_bound(data, layout, (n - 1) as nat);
    }
}

/// The mean of values of at most 255 is at most 255.
proof fn lemma_mean_bound(sum: nat, count: nat)
    requires
        sum <= 255 * count,
    ensures
        mean_milli(sum, count) <= FULL_SCALE_MILLI,
{
    if count > 0 {
        assert((1000 * sum) / count <= 255_000) by (nonlinear_arith)
            requires
                sum <= 255 * count,
                count > 0,
        ;
    }
}

} // verus!
