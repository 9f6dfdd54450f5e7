//! An encoder session.
//!
//! The codec and the scaler are the work of a codec library that lives
//! outside this crate. A session is the part of an encoder that decides: it
//! settles whether a session may be opened, what an image must look like,
//! what the scaler and the codec are handed, and what their answers mean.
//! Each step therefore comes in two halves. The first half says what to hand
//! to the codec library ([`H264Encoder::source_plane`],
//! [`H264Encoder::check_frame`]); the second takes what the library answered
//! and says what became of the request ([`H264Encoder::new`],
//! [`H264Encoder::convert`], [`H264Encoder::encode_frame`]).
//!
//! Frames must be encoded in the order in which they are to be shown, one
//! after the other; a session is not to be used from two places at once.

use vstd::prelude::*;
use crate::error::CodecInitError;
use crate::error::ConversionError;
use crate::error::EncodeError;
use crate::error::EncoderError;
use crate::frame::FrameView;
use crate::frame::PlanarFrame;
use crate::frame::ScaledFrame;
use crate::image::Image;
use crate::settings::check_dimensions;
use crate::settings::dimension_fault;

verus! {

/// What became of opening the codec.
#[derive(Clone, Copy, Debug, PartialEq, Eq, Structural)]
pub enum CodecStatus {
    /// The encoder is open.
    Opened,
    /// The codec library could not be initialised.
    LibraryUnavailable,
    /// The codec library holds no H.264 encoder.
    EncoderNotFound,
    /// The encoder refused the settings.
    OpenFailed,
}

/// What became of setting up the scaler.
#[derive(Clone, Copy, Debug, PartialEq, Eq, Structural)]
pub enum ScalerStatus {
    /// The scaler is set up.
    Ready,
    /// No scaler could be set up.
    Unavailable,
}

/// What the codec answered when it was handed a frame.
#[derive(Debug)]
pub enum CodecOutcome {
    /// The codec took the frame and gave these bytes back.
    Packet(Vec<u8>),
    /// The codec took the frame and gave nothing back.
    NoPacket,
    /// The codec did not take the frame.
    Rejected,
}

/// What a session is: the parameters it was opened with, whether it has a
/// scaler, and how many packets it has yielded.
pub struct Session {
    pub width: u32,
    pub height: u32,
    pub bitrate: u32,
    pub scaler_ready: bool,
    pub frames: u64,
}

/// What stands in the way of opening a session, if anything: first its
/// dimensions, then the codec.
pub open spec fn open_fault(width: u32, height: u32, codec: CodecStatus) -> Option<
    CodecInitError,
> {
    match dimension_fault(width, height) {
        Some(fault) => Some(fault),
        None => match codec {
            CodecStatus::Opened => None,
            CodecStatus::LibraryUnavailable => Some(CodecInitError::LibraryUnavailable),
            CodecStatus::EncoderNotFound => Some(CodecInitError::EncoderNotFound),
            CodecStatus::OpenFailed => Some(CodecInitError::OpenFailed),
        },
    }
}

impl Session {
    /// The dimensions are those a session can have.
    pub open spec fn wf(self) -> bool {
        dimension_fault(self.width, self.height) is None
    }

    /// Why the session cannot convert the image, if it cannot: it has no
    /// scaler, the image is of other dimensions than the session, or the
    /// image is ill-formed.
    pub open spec fn image_fault(self, image: Image) -> Option<ConversionError> {
        if !self.scaler_ready {
            Some(ConversionError::ScalerUnavailable)
        } else if image.width != self.width || image.height != self.height {
            Some(ConversionError::DimensionMismatch)
        } else {
            image.fault()
        }
    }

    /// Why the session cannot lay the image out for the scaler with `stride`
    /// bytes per row, if it cannot.
    pub open spec fn source_fault(self, image: Image, stride: usize) -> Option<ConversionError> {
        match self.image_fault(image) {
            Some(fault) => Some(fault),
            None => image.plane_fault(stride),
        }
    }

    /// Why the conversion of the image failed, if it did: for a reason that
    /// lies in the session or the image, or because the scaler did not
    /// deliver the planes of a frame of the session's dimensions.
    pub open spec fn convert_fault(self, image: Image, scaled: Option<ScaledFrame>) -> Option<
        ConversionError,
    > {
        match self.image_fault(image) {
            Some(fault) => Some(fault),
            None => match scaled {
                Some(planes) if planes.holds(self.width as int, self.height as int) => None,
                _ => Some(ConversionError::ScalerFailed),
            },
        }
    }

    /// Why the session cannot hand the frame to the codec, if it cannot.
    pub open spec fn frame_fault(self, frame: FrameView) -> Option<EncodeError> {
        if frame.width != self.width || frame.height != self.height {
            Some(EncodeError::FrameMismatch)
        } else {
            None
        }
    }

    /// Why encoding the frame failed, if it did: the frame is not one of
    /// this session, or the codec gave no packet. A packet without bytes is
    /// no packet.
    pub open spec fn encode_fault(self, frame: FrameView, outcome: CodecOutcome) -> Option<
        EncodeError,
    > {
        match self.frame_fault(frame) {
            Some(fault) => Some(fault),
            None => match outcome {
                CodecOutcome::Rejected => Some(EncodeError::Rejected),
                CodecOutcome::NoPacket => Some(EncodeError::NoPacket),
                CodecOutcome::Packet(bytes) => if bytes@.len() == 0 {
                    Some(EncodeError::NoPacket)
                } else {
                    None
                },
            },
        }
    }

    /// The session after one more packet: the count of packets goes up by
    /// one and stays where it is once it has reached the largest number it
    /// can hold.
    pub open spec fn counted(self) -> Session {
        Session {
            frames: if self.frames < u64::MAX {
                (self.frames + 1) as u64
            } else {
                self.frames
            },
            ..self
        }
    }
}

/// One codec session of fixed dimensions and bit rate, together with the
/// scaler that converts images for it.
#[derive(Debug)]
pub struct H264Encoder {
    width: u32,
    height: u32,
    bitrate: u32,
    scaler_ready: bool,
    frames: u64,
}

impl View for H264Encoder {
    type V = Session;

    closed spec fn view(&self) -> Session {
        Session {
            width: self.width,
            height: self.height,
            bitrate: self.bitrate,
            scaler_ready: self.scaler_ready,
            frames: self.frames,
        }
    }
}

impl H264Encoder {
    #[verifier::type_invariant]
    spec fn inv(self) -> bool {
        self@.wf()
    }

    /// Opens a session of the given dimensions and bit rate (in bits per
    /// second), given what became of opening the codec and of setting up the
    /// scaler with the [`crate::settings::CodecSettings`] for these
    /// parameters.
    ///
    /// Fails when no session can have these dimensions, whatever the codec
    /// said, and when the codec is not open. A session without a scaler is
    /// opened all the same; it fails when it is asked to convert.
    pub fn new(
        width: u32,
        height: u32,
        bitrate: u32,
        codec: CodecStatus,
        scaler: ScalerStatus,
    ) -> (r: Result<H264Encoder, EncoderError>)
        ensures
            match r {
                Ok(encoder) => open_fault(width, height, codec) is None && encoder@.wf() && encoder@
                    == (Session {
                    width,
                    height,
                    bitrate,
                    scaler_ready: scaler == ScalerStatus::Ready,
                    frames: 0,
                }),
                Err(e) => open_fault(width, height, codec) matches Some(fault) && e
                    == EncoderError::CodecInit(fault),
            },
            width == 0 || height == 0 ==> r == Err::<H264Encoder, EncoderError>(
                EncoderError::CodecInit(CodecInitError::ZeroDimension),
            ),
    {
        match check_dimensions(width, height) {
            Err(fault) => {
                return Err(EncoderError::CodecInit(fault));
            },
            Ok(_) => {},
        }
        let scaler_ready: bool = match scaler {
            ScalerStatus::Ready => true,
            ScalerStatus::Unavailable => false,
        };
        match codec {
            CodecStatus::Opened => Ok(
                H264Encoder { width, height, bitrate, scaler_ready, frames: 0 },
            ),
            CodecStatus::LibraryUnavailable => Err(
                EncoderError::CodecInit(CodecInitError::LibraryUnavailable),
            ),
            CodecStatus::EncoderNotFound => Err(
                EncoderError::CodecInit(CodecInitError::EncoderNotFound),
            ),
            CodecStatus::OpenFailed => Err(EncoderError::CodecInit(CodecInitError::OpenFailed)),
        }
    }

    /// The width of the session's frames in pixels.
    pub fn width(&self) -> (w: u32)
        ensures
            w == self@.width,
    {
        self.width
    }

    /// The height of the session's frames in pixels.
    pub fn height(&self) -> (h: u32)
        ensures
            h == self@.height,
    {
        self.height
    }

    /// The bit rate of the session in bits per second.
    pub fn bitrate(&self) -> (b: u32)
        ensures
            b == self@.bitrate,
    {
        self.bitrate
    }

    /// Whether the session has a scaler.
    pub fn has_scaler(&self) -> (b: bool)
        ensures
            b == self@.scaler_ready,
    {
        self.scaler_ready
    }

    /// The number of packets that the session has yielded.
    pub fn frames_encoded(&self) -> (n: u64)
        ensures
            n == self@.frames,
    {
        self.frames
    }

    /// Tells whether the session can convert the image, and if not, why not.
    pub fn check_image(&self, image: &Image) -> (r: Result<(), ConversionError>)
        ensures
            self@.wf(),
            match r {
                Ok(_) => self@.image_fault(*image) is None,
                Err(e) => self@.image_fault(*image) == Some(e),
            },
    {
        proof {
            use_type_invariant(self);
        }
        if !self.scaler_ready {
            Err(ConversionError::ScalerUnavailable)
        } else if image.width != self.width || image.height != self.height {
            Err(ConversionError::DimensionMismatch)
        } else {
            image.check()
        }
    }

    /// The first half of a conversion: lays the image out for the scaler,
    /// with `stride` bytes per row.
    pub fn source_plane(&self, image: &Image, stride: usize) -> (r: Result<Vec<u8>, EncoderError>)
        ensures
            match r {
                Ok(bytes) => self@.source_fault(*image, stride) is None && bytes@
                    == crate::plane::restrided(
                    image.buffer@,
                    image.stride as int,
                    image.row_bytes(),
                    image.height as int,
                    stride as int,
                ),
                Err(e) => self@.source_fault(*image, stride) matches Some(fault) && e
                    == EncoderError::Conversion(fault),
            },
            image.buffer@.len() < image.width * image.height * 4 ==> r is Err,
    {
        proof {
            if image.buffer@.len() < image.width * image.height * 4 {
                image.lemma_short_buffer_is_a_fault();
            }
        }
        match self.check_image(image) {
            Err(fault) => {
                return Err(EncoderError::Conversion(fault));
            },
            Ok(_) => {},
        }
        match image.plane(stride) {
            Ok(bytes) => Ok(bytes),
            Err(fault) => Err(EncoderError::Conversion(fault)),
        }
    }

    /// The second half of a conversion: given the planes that the scaler
    /// wrote for the image, or `None` if the scaler failed, returns the
    /// frame.
    ///
    /// The frame has the dimensions of the session and so `width * height *
    /// 3 / 2` bytes: the rows of the three planes, without padding.
    pub fn convert(&self, image: &Image, scaled: Option<ScaledFrame>) -> (r: Result<
        PlanarFrame,
        EncoderError,
    >)
        ensures
            match r {
                Ok(frame) => self@.convert_fault(*image, scaled) is None && frame@.wf() && frame@
                    == (FrameView {
                    width: self@.width,
                    height: self@.height,
                    data: scaled->0.packed(self@.width as int, self@.height as int),
                }) && frame@.data.len() == self@.width * self@.height * 3 / 2,
                Err(e) => self@.convert_fault(*image, scaled) matches Some(fault) && e
                    == EncoderError::Conversion(fault),
            },
            image.buffer@.len() < image.width * image.height * 4 ==> r is Err,
    {
        proof {
            if image.buffer@.len() < image.width * image.height * 4 {
                image.lemma_short_buffer_is_a_fault();
            }
        }
        match self.check_image(image) {
            Err(fault) => {
                return Err(EncoderError::Conversion(fault));
            },
            Ok(_) => {},
        }
        let planes = match scaled {
            Some(planes) => planes,
            None => {
                return Err(EncoderError::Conversion(ConversionError::ScalerFailed));
            },
        };
        match PlanarFrame::from_planes(self.width, self.height, &planes) {
            Some(frame) => {
                proof {
                    crate::frame::lemma_frame_len(self.width as int, self.height as int);
                }
                Ok(frame)
            },
            None => Err(EncoderError::Conversion(ConversionError::ScalerFailed)),
        }
    }

    /// The first half of encoding: tells whether the frame may be handed to
    /// the codec of this session.
    pub fn check_frame(&self, frame: &PlanarFrame) -> (r: Result<(), EncoderError>)
        ensures
            match r {
                Ok(_) => self@.frame_fault(frame@) is None,
                Err(e) => self@.frame_fault(frame@) matches Some(fault) && e
                    == EncoderError::Encode(fault),
            },
    {
        if frame.width() != self.width || frame.height() != self.height {
            Err(EncoderError::Encode(EncodeError::FrameMismatch))
        } else {
            Ok(())
        }
    }

    /// The second half of encoding: given what the codec answered when it
    /// was handed the frame, returns the bytes of the packet.
    ///
    /// The bytes are those the codec gave, unread, and there is at least
    /// one. The session counts the packet; a failure leaves the session as
    /// it was.
    pub fn encode_frame(&mut self, frame: &PlanarFrame, outcome: CodecOutcome) -> (r: Result<
        Vec<u8>,
        EncoderError,
    >)
        ensures
            match r {
                Ok(bytes) => old(self)@.encode_fault(frame@, outcome) is None && outcome
                    == CodecOutcome::Packet(bytes) && bytes@.len() > 0 && final(self)@ == old(
                    self,
                )@.counted(),
                Err(e) => old(self)@.encode_fault(frame@, outcome) matches Some(fault) && e
                    == EncoderError::Encode(fault) && final(self)@ == old(self)@,
            },
    {
        proof {
            use_type_invariant(&*self);
        }
        match self.check_frame(frame) {
            Err(e) => {
                return Err(e);
            },
            Ok(_) => {},
        }
        match outcome {
            CodecOutcome::Rejected => Err(EncoderError::Encode(EncodeError::Rejected)),
            CodecOutcome::NoPacket => Err(EncoderError::Encode(EncodeError::NoPacket)),
            CodecOutcome::Packet(bytes) => {
                if bytes.len() == 0 {
                    Err(EncoderError::Encode(EncodeError::NoPacket))
                } else {
                    if self.frames < u64::MAX {
                        self.frames = self.frames + 1;
                    }
                    Ok(bytes)
                }
            },
        }
    }
}

/// A session that has a scaler converts every well-formed image of its own
/// dimensions whose buffer has exactly `width * height * 4` bytes, provided
/// the scaler delivers its planes; the frame has `width * height * 3 / 2`
/// bytes.
pub proof fn lemma_exact_image_converts(session: Session, image: Image, scaled: ScaledFrame)
    requires
        session.wf(),
        session.scaler_ready,
        image.wf(),
        image.width == session.width,
        image.height == session.height,
        image.buffer@.len() == image.width * image.height * 4,
        scaled.holds(session.width as int, session.height as int),
    ensures
        image.stride == image.width * 4,
        session.convert_fault(image, Some(scaled)) is None,
        scaled.packed(session.width as int, session.height as int).len() == session.width
            * session.height * 3 / 2,
{
    image.lemma_fault_iff_ill_formed();
    image.lemma_exact_buffer_is_tight();
    crate::frame::lemma_planes_of_packed(scaled, session.width, session.height);
    crate::frame::lemma_frame_len(session.width as int, session.height as int);
}

/// No session converts an image whose buffer has fewer than `width * height
/// * 4` bytes, whatever the scaler delivers.
pub proof fn lemma_short_image_fails(session: Session, image: Image, scaled: Option<ScaledFrame>)
    requires
        image.buffer@.len() < image.width * image.height * 4,
    ensures
        session.convert_fault(image, scaled) is Some,
{
    image.lemma_short_buffer_is_a_fault();
}

/// A session encodes every frame that it has converted itself, provided the
/// codec gives a packet with at least one byte: the frame is never refused
/// for its dimensions, and the packet's bytes are the result.
pub proof fn lemma_converted_frame_encodes(
    session: Session,
    image: Image,
    scaled: ScaledFrame,
    packet: Vec<u8>,
)
    requires
        session.convert_fault(image, Some(scaled)) is None,
        packet@.len() > 0,
    ensures
        ({
            let frame = FrameView {
                width: session.width,
                height: session.height,
                data: scaled.packed(session.width as int, session.height as int),
            };
            &&& session.frame_fault(frame) is None
            &&& session.encode_fault(frame, CodecOutcome::Packet(packet)) is None
        }),
{
}

/// A request goes through when nothing outside this crate fails: if a session
/// can have the dimensions of a well-formed image, the codec opens, the
/// scaler is set up and delivers its planes, and the codec gives a packet
/// with at least one byte, then the session is opened, converts the image,
/// encodes the frame, and has yielded one packet.
pub proof fn lemma_request_goes_through(
    bitrate: u32,
    image: Image,
    scaled: ScaledFrame,
    packet: Vec<u8>,
)
    requires
        dimension_fault(image.width, image.height) is None,
        image.wf(),
        scaled.holds(image.width as int, image.height as int),
        packet@.len() > 0,
    ensures
        ({
            let session = Session {
                width: image.width,
                height: image.height,
                bitrate,
                scaler_ready: true,
                frames: 0,
            };
            let frame = FrameView {
                width: image.width,
                height: image.height,
                data: scaled.packed(image.width as int, image.height as int),
            };
            &&& open_fault(image.width, image.height, CodecStatus::Opened) is None
            &&& session.convert_fault(image, Some(scaled)) is None
            &&& frame.wf()
            &&& session.encode_fault(frame, CodecOutcome::Packet(packet)) is None
            &&& session.counted().frames == 1
        }),
{
    image.lemma_fault_iff_ill_formed();
    crate::frame::lemma_planes_of_packed(scaled, image.width, image.height);
}

/// What a session makes of an image, of a frame and of the codec's answer
/// depends on its dimensions and on whether it has a scaler, and on nothing
/// else: neither the bit rate nor the packets it has yielded so far change
/// the result. Two sessions opened apart from each other with the same
/// parameters therefore agree on every request.
pub proof fn lemma_sessions_agree(
    first: Session,
    second: Session,
    image: Image,
    scaled: Option<ScaledFrame>,
    frame: FrameView,
    outcome: CodecOutcome,
)
    requires
        first.width == second.width,
        first.height == second.height,
        first.scaler_ready == second.scaler_ready,
    ensures
        first.convert_fault(image, scaled) == second.convert_fault(image, scaled),
        first.encode_fault(frame, outcome) == second.encode_fault(frame, outcome),
{
}

} // verus!
