//! What the codec library is told when a session is opened.
//!
//! A session encodes H.264 at a constant 30 frames per second and a fixed bit
//! rate, from YUV420P frames of fixed dimensions; its scaler turns RGBA images
//! of those same dimensions into such frames, filtering bilinearly.

use vstd::prelude::*;
use crate::error::CodecInitError;
use crate::error::EncoderError;

verus! {

/// The largest width or height that the codec library can be told: it takes
/// both as signed 32-bit numbers.
pub const MAX_DIMENSION: u32 = 0x7fff_ffff;

/// Frames per second of every session: the numerator of the fraction.
pub const FRAME_RATE_NUMERATOR: i32 = 30;

/// Frames per second of every session: the denominator of the fraction.
pub const FRAME_RATE_DENOMINATOR: i32 = 1;

/// The codecs a session can be opened for.
#[derive(Clone, Copy, Debug, PartialEq, Eq, Structural)]
pub enum Codec {
    H264,
}

/// The pixel formats that images and frames have.
#[derive(Clone, Copy, Debug, PartialEq, Eq, Structural)]
pub enum PixelFormat {
    /// Four interleaved bytes per pixel: red, green, blue, alpha.
    Rgba,
    /// One plane of luma at full resolution, then two planes of chroma at
    /// half the resolution in both directions.
    Yuv420p,
}

/// How the scaler interpolates.
#[derive(Clone, Copy, Debug, PartialEq, Eq, Structural)]
pub enum ScalingFilter {
    Bilinear,
}

/// A fraction.
#[derive(Clone, Copy, Debug, PartialEq, Eq, Structural)]
pub struct Rational {
    pub numerator: i32,
    pub denominator: i32,
}

/// What is wrong with the dimensions of a session, if anything: one of them
/// is zero, one of them is odd, one of them is more than the codec can be
/// told, or a frame of these dimensions, which has three bytes for every two
/// pixels, would have more bytes than a buffer can have.
pub open spec fn dimension_fault(width: u32, height: u32) -> Option<CodecInitError> {
    if width == 0 || height == 0 {
        Some(CodecInitError::ZeroDimension)
    } else if width % 2 != 0 || height % 2 != 0 {
        Some(CodecInitError::OddDimension)
    } else if width > MAX_DIMENSION || height > MAX_DIMENSION || width * height * 3 / 2
        > isize::MAX {
        Some(CodecInitError::DimensionTooLarge)
    } else {
        None
    }
}

/// Tells whether a session can have these dimensions, and if not, why not.
pub fn check_dimensions(width: u32, height: u32) -> (r: Result<(), CodecInitError>)
    ensures
        match r {
            Ok(_) => dimension_fault(width, height) is None,
            Err(e) => dimension_fault(width, height) == Some(e),
        },
{
    if width == 0 || height == 0 {
        return Err(CodecInitError::ZeroDimension);
    }
    if width % 2 != 0 || height % 2 != 0 {
        return Err(CodecInitError::OddDimension);
    }
    if width > MAX_DIMENSION || height > MAX_DIMENSION {
        return Err(CodecInitError::DimensionTooLarge);
    }
    assert(width * height <= 0x7fff_ffff * 0x7fff_ffff && (width * height) % 2 == 0)
        by (nonlinear_arith)
        requires
            0 <= width <= 0x7fff_ffff,
            0 <= height <= 0x7fff_ffff,
            width % 2 == 0,
    ;
    let pixels: u64 = width as u64 * height as u64;
    let bytes: u64 = pixels / 2 * 3;
    if bytes > isize::MAX as u64 {
        return Err(CodecInitError::DimensionTooLarge);
    }
    Ok(())
}

/// What the scaler of a session is set up with.
#[derive(Clone, Copy, Debug, PartialEq, Eq, Structural)]
pub struct ScalerSettings {
    pub source_format: PixelFormat,
    pub source_width: u32,
    pub source_height: u32,
    pub target_format: PixelFormat,
    pub target_width: u32,
    pub target_height: u32,
    pub filter: ScalingFilter,
}

/// What the encoder of a session is opened with.
#[derive(Clone, Copy, Debug, PartialEq, Eq, Structural)]
pub struct CodecSettings {
    pub codec: Codec,
    pub width: u32,
    pub height: u32,
    /// Bits per second.
    pub bit_rate: u32,
    pub frame_rate: Rational,
    pub pixel_format: PixelFormat,
}

impl CodecSettings {
    /// The settings of a session of the given dimensions and bit rate.
    pub open spec fn of(width: u32, height: u32, bitrate: u32) -> CodecSettings {
        CodecSettings {
            codec: Codec::H264,
            width,
            height,
            bit_rate: bitrate,
            frame_rate: Rational {
                numerator: FRAME_RATE_NUMERATOR,
                denominator: FRAME_RATE_DENOMINATOR,
            },
            pixel_format: PixelFormat::Yuv420p,
        }
    }

    /// The scaler that belongs to an encoder with these settings.
    pub open spec fn scaler_of(self) -> ScalerSettings {
        ScalerSettings {
            source_format: PixelFormat::Rgba,
            source_width: self.width,
            source_height: self.height,
            target_format: PixelFormat::Yuv420p,
            target_width: self.width,
            target_height: self.height,
            filter: ScalingFilter::Bilinear,
        }
    }

    /// Settles what the encoder is opened with, or says why no session can
    /// have these dimensions.
    pub fn new(width: u32, height: u32, bitrate: u32) -> (r: Result<CodecSettings, EncoderError>)
        ensures
            match r {
                Ok(settings) => dimension_fault(width, height) is None && settings
                    == CodecSettings::of(width, height, bitrate),
                Err(e) => dimension_fault(width, height) matches Some(fault) && e
                    == EncoderError::CodecInit(fault),
            },
    {
        match check_dimensions(width, height) {
            Ok(_) => Ok(
                CodecSettings {
                    codec: Codec::H264,
                    width,
                    height,
                    bit_rate: bitrate,
                    frame_rate: Rational {
                        numerator: FRAME_RATE_NUMERATOR,
                        denominator: FRAME_RATE_DENOMINATOR,
                    },
                    pixel_format: PixelFormat::Yuv420p,
                },
            ),
            Err(fault) => Err(EncoderError::CodecInit(fault)),
        }
    }

    /// Settles what the scaler is set up with: it converts between frames of
    /// the encoder's own dimensions and never resizes.
    pub fn scaler(&self) -> (s: ScalerSettings)
        ensures
            s == self.scaler_of(),
    {
        ScalerSettings {
            source_format: PixelFormat::Rgba,
            source_width: self.width,
            source_height: self.height,
            target_format: PixelFormat::Yuv420p,
            target_width: self.width,
            target_height: self.height,
            filter: ScalingFilter::Bilinear,
        }
    }
}

} // verus!
