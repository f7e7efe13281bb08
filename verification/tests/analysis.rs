use nightlight::analysis::{
    analyze_frame_for_nightlight, calculate_average_brightness, calculate_blue_intensity,
    estimate_ambient_light_level, luma_of, FrameAnalysis,
};
use nightlight::format::{bytes_per_pixel, channel_layout, PixelFormat};
use nightlight::frame::{count_pixels, full_frame_size, FrameData};

fn frame(data: Vec<u8>, width: u32, height: u32, format: PixelFormat) -> FrameData {
    FrameData { data, width, height, format, timestamp: 0 }
}

const ALL_FORMATS: [PixelFormat; 7] = [
    PixelFormat::Rgb,
    PixelFormat::Rgba,
    PixelFormat::Rgbx,
    PixelFormat::Bgrx,
    PixelFormat::Yuy2,
    PixelFormat::I420,
    PixelFormat::Other,
];

#[test]
fn checkerboard_rgba_is_half_bright_and_half_blue() {
    let f = frame(
        vec![255, 255, 255, 255, 0, 0, 0, 255, 255, 255, 255, 255, 0, 0, 0, 255],
        2,
        2,
        PixelFormat::Rgba,
    );
    assert_eq!(calculate_average_brightness(&f), 127_500);
    assert_eq!(calculate_blue_intensity(&f), 127_500);
}

#[test]
fn checkerboard_rgba_has_saturated_contrast() {
    let f = frame(
        vec![255, 255, 255, 255, 0, 0, 0, 255, 255, 255, 255, 255, 0, 0, 0, 255],
        2,
        2,
        PixelFormat::Rgba,
    );
    // normalised brightness 0.5, contrast capped at 1: 0.7 * 0.5 + 0.3 * 1
    assert_eq!(estimate_ambient_light_level(&f), 650_000);
}

#[test]
fn black_rgb_frame_is_dark_in_every_measure() {
    for (width, height) in [(1u32, 1u32), (2, 3), (16, 16), (40, 30)] {
        let f = frame(vec![0; (width * height * 3) as usize], width, height, PixelFormat::Rgb);
        assert_eq!(calculate_average_brightness(&f), 0);
        assert_eq!(calculate_blue_intensity(&f), 0);
        assert_eq!(estimate_ambient_light_level(&f), 0);
    }
}

#[test]
fn black_frame_is_dark_in_every_layout() {
    for format in ALL_FORMATS {
        let f = frame(vec![0; 64], 4, 4, format);
        assert_eq!(calculate_average_brightness(&f), 0);
        assert_eq!(calculate_blue_intensity(&f), 0);
        assert_eq!(estimate_ambient_light_level(&f), 0);
    }
}

#[test]
fn white_rgb_frame_is_full_scale() {
    let f = frame(vec![255; 12], 2, 2, PixelFormat::Rgb);
    assert_eq!(calculate_average_brightness(&f), 255_000);
    assert_eq!(calculate_blue_intensity(&f), 255_000);
    // no contrast: 0.7 * 1
    assert_eq!(estimate_ambient_light_level(&f), 700_000);
}

#[test]
fn luma_weights_the_channels() {
    assert_eq!(luma_of(255, 255, 255), 255);
    assert_eq!(luma_of(0, 0, 0), 0);
    assert_eq!(luma_of(255, 0, 0), 76);
    assert_eq!(luma_of(0, 255, 0), 149);
    assert_eq!(luma_of(0, 0, 255), 29);
    assert_eq!(luma_of(30, 20, 10), 21);
    assert_eq!(luma_of(10, 20, 30), 18);
}

#[test]
fn bgrx_reads_blue_first() {
    let bytes = vec![10, 20, 30, 99];
    let bgrx = frame(bytes.clone(), 1, 1, PixelFormat::Bgrx);
    let rgbx = frame(bytes, 1, 1, PixelFormat::Rgbx);
    assert_eq!(calculate_average_brightness(&bgrx), 21_000);
    assert_eq!(calculate_average_brightness(&rgbx), 18_000);
    assert_eq!(calculate_blue_intensity(&bgrx), 10_000);
    assert_eq!(calculate_blue_intensity(&rgbx), 30_000);
}

#[test]
fn fourth_byte_is_ignored() {
    let a = frame(vec![50, 60, 70, 0], 1, 1, PixelFormat::Rgba);
    let b = frame(vec![50, 60, 70, 255], 1, 1, PixelFormat::Rgba);
    assert_eq!(calculate_average_brightness(&a), calculate_average_brightness(&b));
    assert_eq!(calculate_blue_intensity(&a), 70_000);
    assert_eq!(estimate_ambient_light_level(&a), estimate_ambient_light_level(&b));
}

#[test]
fn mean_rounds_down_to_the_thousandth() {
    // lumas 1, 0, 0: mean 0.333...
    let f = frame(vec![1, 1, 1, 0, 0, 0, 0, 0, 0], 3, 1, PixelFormat::Rgb);
    assert_eq!(calculate_average_brightness(&f), 333);
    assert_eq!(calculate_blue_intensity(&f), 333);
}

#[test]
fn bytes_after_the_declared_pixels_are_not_read() {
    let f = frame(vec![10, 10, 10, 200, 200, 200], 1, 1, PixelFormat::Rgb);
    assert_eq!(calculate_average_brightness(&f), 10_000);
    assert_eq!(calculate_blue_intensity(&f), 10_000);
    assert_eq!(estimate_ambient_light_level(&f), 27_450);
}

#[test]
fn low_contrast_blends_into_the_ambient_estimate() {
    // lumas 100 and 110: mean 105, variance 25, contrast 0.0025
    let f = frame(vec![100, 100, 100, 110, 110, 110], 2, 1, PixelFormat::Rgb);
    assert_eq!(calculate_average_brightness(&f), 105_000);
    assert_eq!(estimate_ambient_light_level(&f), 288_984);
}

#[test]
fn rgbx_has_a_contrast_term() {
    let f = frame(vec![100, 100, 100, 0, 110, 110, 110, 0], 2, 1, PixelFormat::Rgbx);
    assert_eq!(estimate_ambient_light_level(&f), 288_984);
}

#[test]
fn contrast_looks_at_the_first_thousand_pixels_only() {
    // 1000 black pixels, then 1000 white ones
    let mut data = vec![0u8; 3000];
    data.extend(vec![255u8; 3000]);
    let f = frame(data, 2000, 1, PixelFormat::Rgb);
    assert_eq!(calculate_average_brightness(&f), 127_500);
    // every sample lies 127.5 under the mean: variance 16256.25, capped
    assert_eq!(estimate_ambient_light_level(&f), 650_000);

    // the other way round the samples are the same distance above it
    let mut data = vec![255u8; 3000];
    data.extend(vec![0u8; 3000]);
    let g = frame(data, 2000, 1, PixelFormat::Rgb);
    assert_eq!(estimate_ambient_light_level(&g), 650_000);

    // a change behind the first thousand pixels moves the mean, not the samples
    let mut data = vec![100u8; 3000];
    data.extend(vec![104u8; 3000]);
    let h = frame(data, 2000, 1, PixelFormat::Rgb);
    assert_eq!(calculate_average_brightness(&h), 102_000);
    // each sample is 2 under the mean: variance 4, contrast 0.0004
    // normalised 102000000 / 255 = 400000, blend (2800000 + 1200) / 10
    assert_eq!(estimate_ambient_light_level(&h), 280_120);
}

#[test]
fn short_buffer_falls_back_to_the_byte_average() {
    let f = frame(vec![10, 20, 30], 4, 4, PixelFormat::Rgb);
    assert_eq!(calculate_average_brightness(&f), 20_000);
    assert_eq!(calculate_blue_intensity(&f), 0);
    assert_eq!(estimate_ambient_light_level(&f), 54_901);
}

#[test]
fn short_buffer_never_fails_in_any_layout() {
    for format in ALL_FORMATS {
        for len in [0usize, 1, 2, 3, 4, 5, 7, 11, 47] {
            let data: Vec<u8> = (0..len).map(|i| (i * 37 % 256) as u8).collect();
            let sum: u64 = data.iter().map(|&b| b as u64).sum();
            let f = frame(data, 4, 4, format);
            let brightness = calculate_average_brightness(&f);
            assert!(brightness <= 255_000);
            let expected = if len == 0 { 0 } else { (1000 * sum / len as u64) as u32 };
            assert_eq!(brightness, expected);
            assert_eq!(calculate_blue_intensity(&f), 0);
            assert!(estimate_ambient_light_level(&f) <= 1_000_000);
        }
    }
}

#[test]
fn huge_declared_size_is_no_trouble() {
    let f = frame(vec![90, 90, 90, 90], u32::MAX, u32::MAX, PixelFormat::Bgrx);
    assert_eq!(calculate_average_brightness(&f), 90_000);
    assert_eq!(calculate_blue_intensity(&f), 0);
    assert_eq!(count_pixels(u32::MAX, u32::MAX), 18_446_744_065_119_617_025);
    assert_eq!(
        full_frame_size(u32::MAX, u32::MAX, PixelFormat::Bgrx),
        73_786_976_260_478_468_100
    );
}

#[test]
fn frame_without_bytes_is_half_lit() {
    for format in ALL_FORMATS {
        let f = frame(Vec::new(), 2, 2, format);
        assert_eq!(calculate_average_brightness(&f), 0);
        assert_eq!(calculate_blue_intensity(&f), 0);
        assert_eq!(estimate_ambient_light_level(&f), 500_000);
    }
}

#[test]
fn frame_without_pixels_is_dark() {
    let f = frame(vec![200, 200, 200], 0, 5, PixelFormat::Rgb);
    assert_eq!(calculate_average_brightness(&f), 0);
    assert_eq!(calculate_blue_intensity(&f), 0);
    assert_eq!(estimate_ambient_light_level(&f), 0);
}

#[test]
fn yuv_layouts_average_their_bytes() {
    for format in [PixelFormat::Yuy2, PixelFormat::I420, PixelFormat::Other] {
        let f = frame(vec![100, 200], 1, 1, format);
        assert_eq!(calculate_average_brightness(&f), 150_000);
        assert_eq!(calculate_blue_intensity(&f), 0);
        // normalised brightness alone: 150 / 255
        assert_eq!(estimate_ambient_light_level(&f), 588_235);
    }
}

#[test]
fn analysis_gathers_the_measures() {
    let f = FrameData {
        data: vec![255, 255, 255, 255, 0, 0, 0, 255, 255, 255, 255, 255, 0, 0, 0, 255],
        width: 2,
        height: 2,
        format: PixelFormat::Rgba,
        timestamp: 1_000_000_000,
    };
    let analysis = analyze_frame_for_nightlight(&f, 1_250_999_999);
    assert_eq!(
        analysis,
        FrameAnalysis {
            brightness_milli: 127_500,
            blue_milli: 127_500,
            ambient_ppm: 650_000,
            age_ms: 250,
            frame_size: 16,
        }
    );
}

#[test]
fn analysis_age_is_zero_before_the_capture() {
    let f = FrameData {
        data: vec![1, 2, 3],
        width: 1,
        height: 1,
        format: PixelFormat::Rgb,
        timestamp: 5_000_000_000,
    };
    assert_eq!(analyze_frame_for_nightlight(&f, 4_000_000_000).age_ms, 0);
    assert_eq!(analyze_frame_for_nightlight(&f, 5_000_000_000).age_ms, 0);
    assert_eq!(analyze_frame_for_nightlight(&f, 5_000_999_999).age_ms, 0);
    assert_eq!(analyze_frame_for_nightlight(&f, 5_001_000_000).age_ms, 1);
}

#[test]
fn analysing_twice_gives_the_same() {
    for format in ALL_FORMATS {
        let data: Vec<u8> = (0..48).map(|i| (i * 53 % 256) as u8).collect();
        let f = frame(data, 4, 3, format);
        let first = analyze_frame_for_nightlight(&f, 123_456_789);
        let second = analyze_frame_for_nightlight(&f, 123_456_789);
        assert_eq!(first, second);
        let copy = FrameData {
            data: f.data.clone(),
            width: f.width,
            height: f.height,
            format: f.format,
            timestamp: f.timestamp,
        };
        assert_eq!(analyze_frame_for_nightlight(&copy, 123_456_789), first);
    }
}

#[test]
fn bytes_per_pixel_follows_the_table() {
    assert_eq!(bytes_per_pixel(PixelFormat::Rgb), 3);
    assert_eq!(bytes_per_pixel(PixelFormat::Rgba), 4);
    assert_eq!(bytes_per_pixel(PixelFormat::Rgbx), 4);
    assert_eq!(bytes_per_pixel(PixelFormat::Bgrx), 4);
    assert_eq!(bytes_per_pixel(PixelFormat::Yuy2), 2);
    assert_eq!(bytes_per_pixel(PixelFormat::I420), 1);
    assert_eq!(bytes_per_pixel(PixelFormat::Other), 4);
}

#[test]
fn channel_layout_knows_the_rgb_layouts_only() {
    let rgb = channel_layout(PixelFormat::Rgb).unwrap();
    assert_eq!((rgb.stride, rgb.red, rgb.green, rgb.blue), (3, 0, 1, 2));
    let rgba = channel_layout(PixelFormat::Rgba).unwrap();
    assert_eq!((rgba.stride, rgba.red, rgba.green, rgba.blue), (4, 0, 1, 2));
    let rgbx = channel_layout(PixelFormat::Rgbx).unwrap();
    assert_eq!((rgbx.stride, rgbx.red, rgbx.green, rgbx.blue), (4, 0, 1, 2));
    let bgrx = channel_layout(PixelFormat::Bgrx).unwrap();
    assert_eq!((bgrx.stride, bgrx.red, bgrx.green, bgrx.blue), (4, 2, 1, 0));
    assert!(channel_layout(PixelFormat::Yuy2).is_none());
    assert!(channel_layout(PixelFormat::I420).is_none());
    assert!(channel_layout(PixelFormat::Other).is_none());
}
