use notifications::error::RejectionReason;
use notifications::image::{serialize_image, validate_image, MAX_SIZE};
use zbus::zvariant::Value;

fn buffer(len: usize) -> Vec<u8> {
    vec![7u8; len]
}

#[test]
fn packed_rgb_image_is_accepted_with_inputs_kept() {
    let d = validate_image(10, 4, 30, false, 8, 3, buffer(120)).unwrap();
    assert_eq!(d.width(), 10);
    assert_eq!(d.height(), 4);
    assert_eq!(d.row_stride(), 30);
    assert!(!d.has_alpha());
    assert_eq!(d.bits_per_sample(), 8);
    assert_eq!(d.channels(), 3);
    assert_eq!(d.data(), &buffer(120)[..]);
}

#[test]
fn packed_rgba_image_of_largest_size_is_accepted() {
    let len = 255 * 255 * 4;
    let d = validate_image(255, 255, 255 * 4, true, 8, 4, buffer(len)).unwrap();
    assert_eq!(d.width(), 255);
    assert_eq!(d.height(), 255);
    assert_eq!(d.row_stride(), 1020);
    assert!(d.has_alpha());
    assert_eq!(d.channels(), 4);
    assert_eq!(d.data().len(), len);
}

#[test]
fn smallest_image_is_accepted() {
    assert!(validate_image(1, 1, 3, false, 8, 3, buffer(3)).is_ok());
}

#[test]
fn zero_width_is_too_small() {
    assert_eq!(validate_image(0, 10, 30, false, 8, 3, buffer(300)).err(), Some(RejectionReason::GeometryTooSmall));
}

#[test]
fn zero_height_is_too_small() {
    assert_eq!(validate_image(10, 0, 30, false, 8, 3, buffer(300)).err(), Some(RejectionReason::GeometryTooSmall));
}

#[test]
fn row_stride_two_is_too_small() {
    assert_eq!(validate_image(10, 10, 2, false, 8, 3, buffer(300)).err(), Some(RejectionReason::GeometryTooSmall));
}

#[test]
fn negative_geometry_is_too_small() {
    assert_eq!(validate_image(-5, 10, 30, false, 8, 3, buffer(300)).err(), Some(RejectionReason::GeometryTooSmall));
}

#[test]
fn payload_over_ceiling_is_too_large() {
    assert_eq!(MAX_SIZE, 1 << 21);
    let over = buffer((1 << 21) + 1);
    assert_eq!(validate_image(10, 10, 30, false, 8, 3, over.clone()).err(), Some(RejectionReason::PayloadTooLarge));
    assert_eq!(validate_image(300, 300, 900, true, 16, 7, over).err(), Some(RejectionReason::PayloadTooLarge));
}

#[test]
fn payload_at_ceiling_passes_the_size_check() {
    assert!(validate_image(255, 255, 1020, true, 8, 4, buffer(1 << 21)).is_ok());
}

#[test]
fn sixteen_bits_per_sample_is_unsupported() {
    assert_eq!(validate_image(10, 10, 30, false, 16, 3, buffer(300)).err(), Some(RejectionReason::UnsupportedSampleDepth));
}

#[test]
fn alpha_with_three_channels_mismatches() {
    assert_eq!(validate_image(10, 10, 40, true, 8, 3, buffer(400)).err(), Some(RejectionReason::ChannelCountMismatch));
}

#[test]
fn no_alpha_with_four_channels_mismatches() {
    assert_eq!(validate_image(10, 10, 40, false, 8, 4, buffer(400)).err(), Some(RejectionReason::ChannelCountMismatch));
}

#[test]
fn width_256_is_too_large() {
    let stride = 256 * 3;
    assert_eq!(
        validate_image(256, 255, stride, false, 8, 3, buffer(255 * stride as usize)).err(),
        Some(RejectionReason::DimensionTooLarge)
    );
}

#[test]
fn height_256_is_too_large() {
    assert_eq!(validate_image(10, 256, 30, false, 8, 3, buffer(256 * 30)).err(), Some(RejectionReason::DimensionTooLarge));
}

#[test]
fn short_buffer_is_too_small_for_height() {
    assert_eq!(validate_image(10, 10, 30, false, 8, 3, buffer(250)).err(), Some(RejectionReason::BufferTooSmallForHeight));
}

#[test]
fn narrow_row_stride_is_too_small_for_width() {
    assert_eq!(validate_image(10, 10, 20, false, 8, 3, buffer(200)).err(), Some(RejectionReason::RowStrideTooSmallForWidth));
}

#[test]
fn padded_rows_are_accepted() {
    let d = validate_image(10, 10, 32, false, 8, 3, buffer(320)).unwrap();
    assert_eq!(d.row_stride(), 32);
}

#[test]
fn validation_twice_gives_the_same_result() {
    let a = validate_image(10, 10, 30, false, 8, 3, buffer(300)).unwrap();
    let b = validate_image(10, 10, 30, false, 8, 3, buffer(300)).unwrap();
    assert_eq!(
        (a.width(), a.height(), a.row_stride(), a.has_alpha(), a.bits_per_sample(), a.channels(), a.data()),
        (b.width(), b.height(), b.row_stride(), b.has_alpha(), b.bits_per_sample(), b.channels(), b.data())
    );
    assert_eq!(
        validate_image(10, 10, 20, false, 8, 3, buffer(200)).err(),
        validate_image(10, 10, 20, false, 8, 3, buffer(200)).err()
    );
}

#[test]
fn serialized_image_is_the_field_structure() {
    let data = vec![1u8, 2, 3, 4, 5, 6];
    let v = serialize_image(2, 1, 6, false, 8, 3, data.clone()).unwrap();
    let expected = Value::from((2i32, 1i32, 6i32, false, 8i32, 3i32, data));
    assert_eq!(v, expected);
    assert_eq!(v.value_signature().as_str(), "(iiibiiay)");
}

#[test]
fn serialization_twice_gives_the_same_value() {
    let a = serialize_image(2, 2, 8, true, 8, 4, buffer(16)).unwrap();
    let b = serialize_image(2, 2, 8, true, 8, 4, buffer(16)).unwrap();
    assert_eq!(a, b);
}

#[test]
fn serialization_reports_the_first_failed_check() {
    assert_eq!(serialize_image(2, 2, 8, true, 8, 3, buffer(16)).err(), Some(RejectionReason::ChannelCountMismatch));
    assert_eq!(serialize_image(2, 2, 8, true, 16, 3, buffer(16)).err(), Some(RejectionReason::UnsupportedSampleDepth));
}
