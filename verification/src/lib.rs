//! The verified core of an H.264 frame encoder binding.
//!
//! A caller supplies an RGBA [`Image`]; a scaler converts it to a YUV420P
//! [`PlanarFrame`] of the same dimensions; a codec compresses the frame to
//! one H.264 packet. The scaler and the codec belong to a codec library
//! outside this crate. This crate holds everything around them that can be
//! decided without them: which sessions may be opened and with what
//! settings, which images a session takes, how pixel rows are laid out for
//! the scaler and the codec, what a frame holds, and what becomes of a
//! request for each answer that the codec library can give.

pub mod encoder;
pub mod error;
pub mod frame;
pub mod image;
pub mod packet;
pub mod plane;
pub mod settings;

pub use crate::encoder::CodecOutcome;
pub use crate::encoder::CodecStatus;
pub use crate::encoder::H264Encoder;
pub use crate::encoder::ScalerStatus;
pub use crate::error::CodecInitError;
pub use crate::error::ConversionError;
pub use crate::error::EncodeError;
pub use crate::error::EncoderError;
pub use crate::frame::PlanarFrame;
pub use crate::frame::Plane;
pub use crate::frame::PlaneKind;
pub use crate::frame::ScaledFrame;
pub use crate::image::Image;
pub use crate::settings::CodecSettings;
pub use crate::settings::ScalerSettings;
