use alkahest_shadowkeep::pixels::{
    compute_stats, decode_pixel, quantize_clear_rgb, Pixel, PixelStats, Sample, SurfaceFormat,
};
use alkahest_shadowkeep::provenance::{
    capture_digest, compared_captures, pack_rows, record_capture, sky_object_domain_delta,
    CaptureRequest, CapturedBytes, SurfaceProvenance,
};
use alkahest_shadowkeep::single::{decode_f16, decode_unsigned_float, encode_unsigned_float};

fn value(sample: Sample) -> f32 {
    match sample {
        Sample::Unorm { value, max } => value as f32 / max as f32,
        Sample::Float { bits } => f32::from_bits(bits),
    }
}

fn values(pixel: Pixel) -> [f32; 4] {
    [
        value(pixel.r),
        value(pixel.g),
        value(pixel.b),
        value(pixel.a),
    ]
}

fn minimum_rgb(stats: &PixelStats) -> Option<[f64; 3]> {
    Some([
        value(stats.minimum_r?) as f64,
        value(stats.minimum_g?) as f64,
        value(stats.minimum_b?) as f64,
    ])
}

fn maximum_rgb(stats: &PixelStats) -> Option<[f64; 3]> {
    Some([
        value(stats.maximum_r?) as f64,
        value(stats.maximum_g?) as f64,
        value(stats.maximum_b?) as f64,
    ])
}

#[test]
fn computes_unorm_statistics_and_alpha_count() {
    let stats = compute_stats(
        SurfaceFormat::R8g8b8a8Unorm,
        &[0, 0, 0, 0, 255, 128, 0, 255],
        None,
    )
    .unwrap();
    assert_eq!(stats.finite_pixel_count, 2);
    assert_eq!(stats.nonzero_rgb_pixel_count, 1);
    assert_eq!(minimum_rgb(&stats), Some([0.0; 3]));
    assert_eq!(
        maximum_rgb(&stats),
        Some([1.0, (128.0f32 / 255.0) as f64, 0.0])
    );
    assert_eq!(stats.nonzero_alpha_count, Some(1));
    assert_eq!(stats.pixels_different_from_clear_value, None);
}

#[test]
fn decodes_half_float_alpha() {
    let pixel = decode_pixel(
        SurfaceFormat::R16g16b16a16Float,
        &[0x00, 0x3c, 0x00, 0xc0, 0x00, 0x00, 0x00, 0x38],
    );
    assert_eq!(values(pixel), [1.0, -2.0, 0.0, 0.5]);
}

#[test]
fn decodes_r11g11b10_one() {
    let one_r11 = 15u32 << 6;
    let one_g11 = (15u32 << 6) << 11;
    let one_b10 = (15u32 << 5) << 22;
    let pixel = decode_pixel(
        SurfaceFormat::R11g11b10Float,
        &(one_r11 | one_g11 | one_b10).to_le_bytes(),
    );
    assert_eq!(values(pixel), [1.0, 1.0, 1.0, 0.0]);
}

#[test]
fn counts_pixels_different_from_r11_clear_value() {
    let clear = [
        encode_unsigned_float(0.001f32.to_bits(), 6),
        encode_unsigned_float(0.001f32.to_bits(), 6),
        encode_unsigned_float(0.001f32.to_bits(), 5),
    ];
    let packed_clear = clear[0] | (clear[1] << 11) | (clear[2] << 22);
    let brighter = encode_unsigned_float(0.25f32.to_bits(), 6) | (clear[1] << 11) | (clear[2] << 22);
    let bytes = [packed_clear.to_le_bytes(), brighter.to_le_bytes()].concat();

    let stats = compute_stats(
        SurfaceFormat::R11g11b10Float,
        &bytes,
        Some([0.001f32, 0.001, 0.001, 0.0].map(f32::to_bits)),
    )
    .unwrap();

    assert_eq!(stats.pixels_different_from_clear_value, Some(1));
}

#[test]
fn counts_pixels_different_from_r8g8_clear_value() {
    let stats = compute_stats(
        SurfaceFormat::R8g8Typeless,
        &[255, 255, 128, 255],
        Some([1.0f32, 1.0, 1.0, 1.0].map(f32::to_bits)),
    )
    .unwrap();

    assert_eq!(maximum_rgb(&stats), Some([1.0, 1.0, 0.0]));
    assert_eq!(stats.pixels_different_from_clear_value, Some(1));
}

#[test]
fn counts_non_finite_and_saturated_rgb_pixels() {
    let stats = compute_stats(
        SurfaceFormat::R16g16b16a16Float,
        &[
            0x00, 0x3c, 0x00, 0x3c, 0x00, 0x3c, 0x00, 0x3c, 0x00, 0x7c, 0x00, 0x3c, 0x00, 0x3c,
            0x00, 0x3c,
        ],
        None,
    )
    .unwrap();
    assert_eq!(stats.finite_pixel_count, 1);
    assert_eq!(stats.non_finite_pixel_count, 1);
    assert_eq!(stats.clipped_or_saturated_pixel_count, 2);
}

#[test]
fn misaligned_captures_and_unknown_clear_values_are_refused() {
    assert_eq!(
        compute_stats(SurfaceFormat::R8g8b8a8Unorm, &[0; 5], None)
            .unwrap_err()
            .message,
        "Capture byte length is not aligned to format R8g8b8a8Unorm"
    );
    assert_eq!(
        quantize_clear_rgb(SurfaceFormat::R32Typeless, [0; 4])
            .unwrap_err()
            .message,
        "Clear-value statistics are unsupported for format R32Typeless"
    );
}

#[test]
fn half_floats_decode_exactly() {
    assert_eq!(f32::from_bits(decode_f16(0x3c00)), 1.0);
    assert_eq!(f32::from_bits(decode_f16(0xc000)), -2.0);
    assert_eq!(f32::from_bits(decode_f16(0x0001)), 5.960_464_5e-8);
    assert_eq!(f32::from_bits(decode_f16(0x7c00)), f32::INFINITY);
    assert!(f32::from_bits(decode_f16(0x7e01)).is_nan());
    assert_eq!(decode_f16(0x8000), (-0.0f32).to_bits());
}

#[test]
fn small_floats_survive_a_round_trip() {
    for code in 0..(31u32 << 6) {
        let bits = decode_unsigned_float(code, 6);
        assert_eq!(encode_unsigned_float(bits, 6), code);
    }
    for code in 0..(31u32 << 5) {
        let bits = decode_unsigned_float(code, 5);
        assert_eq!(encode_unsigned_float(bits, 5), code);
    }
    assert_eq!(encode_unsigned_float((-1.0f32).to_bits(), 6), 0);
    assert_eq!(encode_unsigned_float(1.0f32.to_bits(), 6), 15 << 6);
}

#[test]
fn digests_are_sha256() {
    assert_eq!(
        capture_digest(b"abc"),
        "ba7816bf8f01cfea414140de5dae2223b00361a396177a9cb410ff61f20015ad"
    );
    assert_eq!(
        capture_digest(b""),
        "e3b0c44298fc1c149afbf4c8996fb92427ae41e4649b934ca495991b7852b855"
    );
}

#[test]
fn rows_are_packed_without_their_padding() {
    assert_eq!(
        pack_rows(&[1, 2, 9, 9, 3, 4, 9, 9], 4, 2, 2),
        vec![1, 2, 3, 4]
    );
}

fn request(name: &str, format: &str) -> CaptureRequest {
    CaptureRequest {
        name: name.to_string(),
        shown_format: format.to_string(),
        view_format: format.to_string(),
        resource_format: format.to_string(),
        width: 2,
        height: 1,
        clear_value: None,
        statistics_encoding: None,
    }
}

#[test]
fn captures_are_recorded_with_their_digest() {
    let record = record_capture(
        &request("output", "R8g8b8a8UnormSrgb"),
        &[0, 0, 0, 0, 255, 128, 0, 255],
    )
    .unwrap();
    assert_eq!(record.file, "output.bin");
    assert_eq!(record.statistics_encoding, "srgb_encoded_raw");
    assert_eq!(record.statistics.nonzero_rgb_pixel_count, 1);
    assert_eq!(
        record.sha256,
        capture_digest(&[0, 0, 0, 0, 255, 128, 0, 255])
    );
    assert_eq!(
        record_capture(&request("output", "Bc1Unorm"), &[]).unwrap_err().message,
        "Unsupported provenance format Bc1Unorm"
    );
}

fn capture(name: &str, format: &str, bytes: &[u8]) -> SurfaceProvenance {
    record_capture(&request(name, format), bytes).unwrap()
}

#[test]
fn changes_are_split_by_depth() {
    let far = [0u8, 0, 0, 0, 0, 0, 0x80, 0x3f];
    let before = [1u8, 1, 1, 1, 2, 2, 2, 2];
    let after = [1u8, 9, 1, 1, 2, 2, 2, 2];
    let color_a = capture("shading_result", "R8g8b8a8Unorm", &before);
    let color_b = capture("shading_result", "R8g8b8a8Unorm", &after);
    let depth_a = capture("gbuffer_depth", "R32Typeless", &far);
    let depth_b = capture("gbuffer_depth", "R32Typeless", &far);
    let delta = sky_object_domain_delta(
        &color_a,
        &color_b,
        &depth_a,
        &depth_b,
        &CapturedBytes {
            before_color: &before,
            after_color: &after,
            before_depth: &far,
            after_depth: &far,
        },
    )
    .unwrap();
    assert!(!delta.clear_is_one);
    assert_eq!(delta.clear_depth_pixels, 1);
    assert_eq!(delta.geometry_pixels, 1);
    assert_eq!(delta.changed_clear_depth_pixels, 1);
    assert_eq!(delta.changed_geometry_pixels, 0);
    assert!(delta.gbuffer_depth_byte_identical);
    let same = sky_object_domain_delta(
        &color_a,
        &color_a,
        &depth_a,
        &depth_a,
        &CapturedBytes {
            before_color: &before,
            after_color: &before,
            before_depth: &far,
            after_depth: &far,
        },
    )
    .unwrap();
    assert_eq!(same.changed_clear_depth_pixels + same.changed_geometry_pixels, 0);
}

#[test]
fn comparisons_need_all_four_captures() {
    let bytes = [0u8; 8];
    let color = capture("shading_result", "R8g8b8a8Unorm", &bytes);
    let missing = compared_captures(&[color], &[]);
    assert!(missing
        .unwrap_err()
        .message
        .starts_with("sky-object A/B capture omitted "));
}
