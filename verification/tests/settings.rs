use cvm_rs::settings::check_dimensions;
use cvm_rs::settings::Codec;
use cvm_rs::settings::PixelFormat;
use cvm_rs::settings::Rational;
use cvm_rs::settings::ScalingFilter;
use cvm_rs::settings::FRAME_RATE_DENOMINATOR;
use cvm_rs::settings::FRAME_RATE_NUMERATOR;
use cvm_rs::settings::MAX_DIMENSION;
use cvm_rs::CodecInitError;
use cvm_rs::CodecSettings;
use cvm_rs::EncoderError;
use cvm_rs::ScalerSettings;

#[test]
fn the_frame_rate_is_thirty_per_second() {
    assert_eq!(FRAME_RATE_NUMERATOR, 30);
    assert_eq!(FRAME_RATE_DENOMINATOR, 1);
}

#[test]
fn the_largest_dimension_is_that_of_a_signed_number() {
    assert_eq!(MAX_DIMENSION, 2147483647);
    assert_eq!(MAX_DIMENSION as i64, i32::MAX as i64);
}

#[test]
fn even_dimensions_are_accepted() {
    assert_eq!(check_dimensions(64, 64), Ok(()));
    assert_eq!(check_dimensions(2, 2), Ok(()));
    assert_eq!(check_dimensions(1920, 1080), Ok(()));
    assert_eq!(check_dimensions(2147483646, 2), Ok(()));
}

#[test]
fn a_dimension_of_zero_is_refused() {
    assert_eq!(check_dimensions(0, 64), Err(CodecInitError::ZeroDimension));
    assert_eq!(check_dimensions(64, 0), Err(CodecInitError::ZeroDimension));
    assert_eq!(check_dimensions(0, 0), Err(CodecInitError::ZeroDimension));
    assert_eq!(check_dimensions(0, 63), Err(CodecInitError::ZeroDimension));
}

#[test]
fn an_odd_dimension_is_refused() {
    assert_eq!(check_dimensions(64, 63), Err(CodecInitError::OddDimension));
    assert_eq!(check_dimensions(63, 64), Err(CodecInitError::OddDimension));
    assert_eq!(check_dimensions(1, 1), Err(CodecInitError::OddDimension));
    assert_eq!(check_dimensions(u32::MAX, 2), Err(CodecInitError::OddDimension));
}

#[test]
fn a_dimension_beyond_the_codec_is_refused() {
    assert_eq!(check_dimensions(2147483648, 2), Err(CodecInitError::DimensionTooLarge));
    assert_eq!(check_dimensions(2, 4294967294), Err(CodecInitError::DimensionTooLarge));
}

#[test]
fn the_largest_dimensions_are_accepted_where_a_buffer_can_hold_their_frame() {
    let bytes: u128 = 2147483646u128 * 2147483646u128 * 3 / 2;
    let expected = if bytes <= isize::MAX as u128 {
        Ok(())
    } else {
        Err(CodecInitError::DimensionTooLarge)
    };
    assert_eq!(check_dimensions(2147483646, 2147483646), expected);
}

#[test]
fn the_codec_is_opened_for_h264_at_a_constant_rate() {
    let settings = CodecSettings::new(64, 48, 500000).unwrap();
    assert_eq!(
        settings,
        CodecSettings {
            codec: Codec::H264,
            width: 64,
            height: 48,
            bit_rate: 500000,
            frame_rate: Rational { numerator: 30, denominator: 1 },
            pixel_format: PixelFormat::Yuv420p,
        }
    );
}

#[test]
fn the_bit_rate_is_handed_on_as_given() {
    assert_eq!(CodecSettings::new(2, 2, 0).unwrap().bit_rate, 0);
    assert_eq!(CodecSettings::new(2, 2, u32::MAX).unwrap().bit_rate, u32::MAX);
}

#[test]
fn no_settings_for_dimensions_that_no_session_can_have() {
    assert_eq!(
        CodecSettings::new(0, 64, 500000),
        Err(EncoderError::CodecInit(CodecInitError::ZeroDimension))
    );
    assert_eq!(
        CodecSettings::new(64, 63, 500000),
        Err(EncoderError::CodecInit(CodecInitError::OddDimension))
    );
    assert_eq!(
        CodecSettings::new(4294967294, 64, 500000),
        Err(EncoderError::CodecInit(CodecInitError::DimensionTooLarge))
    );
}

#[test]
fn the_scaler_converts_without_resizing() {
    let settings = CodecSettings::new(64, 48, 500000).unwrap();
    assert_eq!(
        settings.scaler(),
        ScalerSettings {
            source_format: PixelFormat::Rgba,
            source_width: 64,
            source_height: 48,
            target_format: PixelFormat::Yuv420p,
            target_width: 64,
            target_height: 48,
            filter: ScalingFilter::Bilinear,
        }
    );
}
