//! The ways in which a request can fail.
//!
//! Every failure ends the request it occurred in: nothing is retried and no
//! partial result is handed out. A caller tells a configuration mistake from
//! a bad image from a codec problem by the class of the error.

use vstd::prelude::*;

verus! {

/// The image could not be turned into a planar frame.
#[derive(Clone, Copy, Debug, PartialEq, Eq, Structural)]
pub enum ConversionError {
    /// No scaler was set up when the session was opened.
    ScalerUnavailable,
    /// The image does not have the dimensions the session was opened with.
    DimensionMismatch,
    /// A row stride is shorter than one row of pixels, or so long that no
    /// buffer can hold the plane.
    InvalidStride,
    /// The buffer is shorter than the rows of the image.
    BufferTooSmall,
    /// The scaler failed, or the planes it delivered do not hold a frame of
    /// the session's dimensions.
    ScalerFailed,
}

/// No codec session could be opened.
#[derive(Clone, Copy, Debug, PartialEq, Eq, Structural)]
pub enum CodecInitError {
    /// The width or the height is zero.
    ZeroDimension,
    /// The width or the height is odd, which a frame with chroma planes of
    /// half the resolution cannot be.
    OddDimension,
    /// The width or the height is more than the codec can be told, or a
    /// frame of these dimensions would have more bytes than a buffer can
    /// have.
    DimensionTooLarge,
    /// The codec library could not be initialised.
    LibraryUnavailable,
    /// The codec library holds no H.264 encoder.
    EncoderNotFound,
    /// The encoder refused the settings.
    OpenFailed,
}

/// The codec did not yield a packet for the frame.
#[derive(Clone, Copy, Debug, PartialEq, Eq, Structural)]
pub enum EncodeError {
    /// The frame does not have the dimensions the session was opened with.
    FrameMismatch,
    /// The codec rejected the frame.
    Rejected,
    /// The codec took the frame and gave no packet back.
    NoPacket,
}

/// Any failure of a request, by class.
#[derive(Clone, Copy, Debug, PartialEq, Eq, Structural)]
pub enum EncoderError {
    Conversion(ConversionError),
    CodecInit(CodecInitError),
    Encode(EncodeError),
}

impl EncoderError {
    /// The name of the class of the error.
    pub open spec fn class_name(self) -> Seq<char> {
        match self {
            EncoderError::Conversion(_) => "ConversionError"@,
            EncoderError::CodecInit(_) => "CodecInitError"@,
            EncoderError::Encode(_) => "EncodeError"@,
        }
    }

    /// What went wrong, in words.
    pub open spec fn reason_text(self) -> Seq<char> {
        match self {
            EncoderError::Conversion(fault) => match fault {
                ConversionError::ScalerUnavailable => "the session has no scaler"@,
                ConversionError::DimensionMismatch => "the image does not have the dimensions of the session"@,
                ConversionError::InvalidStride => "a row stride is shorter than a row of pixels or too long for a buffer"@,
                ConversionError::BufferTooSmall => "the buffer is shorter than the rows of the image"@,
                ConversionError::ScalerFailed => "the scaler did not deliver a frame"@,
            },
            EncoderError::CodecInit(fault) => match fault {
                CodecInitError::ZeroDimension => "the width or the height is zero"@,
                CodecInitError::OddDimension => "the width or the height is odd"@,
                CodecInitError::DimensionTooLarge => "the width or the height is too large for the codec"@,
                CodecInitError::LibraryUnavailable => "the codec library could not be initialised"@,
                CodecInitError::EncoderNotFound => "the codec library has no H.264 encoder"@,
                CodecInitError::OpenFailed => "the encoder refused the settings"@,
            },
            EncoderError::Encode(fault) => match fault {
                EncodeError::FrameMismatch => "the frame does not have the dimensions of the session"@,
                EncodeError::Rejected => "the codec rejected the frame"@,
                EncodeError::NoPacket => "the codec gave no packet"@,
            },
        }
    }

    /// The name under which a caller is told of the error.
    pub fn classification(&self) -> (name: &'static str)
        ensures
            name@ == self.class_name(),
    {
        match self {
            EncoderError::Conversion(_) => "ConversionError",
            EncoderError::CodecInit(_) => "CodecInitError",
            EncoderError::Encode(_) => "EncodeError",
        }
    }

    /// The sentence that tells a caller what went wrong.
    pub fn reason(&self) -> (text: &'static str)
        ensures
            text@ == self.reason_text(),
    {
        match self {
            EncoderError::Conversion(fault) => match fault {
                ConversionError::ScalerUnavailable => "the session has no scaler",
                ConversionError::DimensionMismatch => "the image does not have the dimensions of the session",
                ConversionError::InvalidStride => "a row stride is shorter than a row of pixels or too long for a buffer",
                ConversionError::BufferTooSmall => "the buffer is shorter than the rows of the image",
                ConversionError::ScalerFailed => "the scaler did not deliver a frame",
            },
            EncoderError::CodecInit(fault) => match fault {
                CodecInitError::ZeroDimension => "the width or the height is zero",
                CodecInitError::OddDimension => "the width or the height is odd",
                CodecInitError::DimensionTooLarge => "the width or the height is too large for the codec",
                CodecInitError::LibraryUnavailable => "the codec library could not be initialised",
                CodecInitError::EncoderNotFound => "the codec library has no H.264 encoder",
                CodecInitError::OpenFailed => "the encoder refused the settings",
            },
            EncoderError::Encode(fault) => match fault {
                EncodeError::FrameMismatch => "the frame does not have the dimensions of the session",
                EncodeError::Rejected => "the codec rejected the frame",
                EncodeError::NoPacket => "the codec gave no packet",
            },
        }
    }
}

} // verus!
