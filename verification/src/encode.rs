//! Video encoding and decoding abstraction.

use vstd::prelude::*;
use vstd::string::*;
use crate::capture::CapturedFrame;
use crate::config::CodecType;

verus! {

/// Errors that can occur during video encoding.
#[derive(Debug)]
pub enum EncodeError {
    NotInitialized,
    InvalidDimensions { width: u32, height: u32 },
    EncodingFailed(String),
    HardwareNotAvailable(String),
    Other(String),
}

/// Errors that can occur during video decoding.
#[derive(Debug)]
pub enum DecodeError {
    NotInitialized,
    CorruptFrame,
    DecodingFailed(String),
    UnsupportedCodec(String),
    Other(String),
}

/// An encoded video frame ready for transmission.
#[derive(Debug, Clone)]
pub struct EncodedFrame {
    /// Encoded bitstream data.
    pub data: Vec<u8>,
    /// The codec used for encoding.
    pub codec: CodecType,
    /// Whether this is a keyframe (IDR for H.264).
    pub is_keyframe: bool,
    /// Frame timestamp in microseconds.
    pub timestamp: u64,
}

/// A decoded video frame ready for display.
#[derive(Debug, Clone)]
pub struct DecodedFrame {
    /// Pixel data in BGRA format.
    pub data: Vec<u8>,
    /// Frame width in pixels.
    pub width: u32,
    /// Frame height in pixels.
    pub height: u32,
    /// Frame timestamp in microseconds.
    pub timestamp: u64,
}

/// Trait for video encoders.
///
/// Implementations should use hardware acceleration where available:
/// Media Foundation or NVENC on Windows, VideoToolbox on macOS.
pub trait VideoEncoder: Send + Sync {
    /// Whether a keyframe was requested and the encoder still owes it: the
    /// next frame it encodes is a keyframe.
    spec fn keyframe_pending(&self) -> bool;

    /// Encode a raw captured frame into an encoded bitstream. A frame encoded
    /// while a keyframe is owed is a keyframe, and pays the debt; a failed
    /// encode leaves it owed.
    fn encode(&mut self, frame: &CapturedFrame) -> (r: Result<EncodedFrame, EncodeError>)
        ensures
            old(self).keyframe_pending() && r is Ok ==> r->Ok_0.is_keyframe,
            r is Ok ==> !final(self).keyframe_pending(),
            r is Err ==> final(self).keyframe_pending() == old(self).keyframe_pending(),
    ;

    /// Dynamically adjust the encoding bitrate; a keyframe request stands.
    fn set_bitrate(&mut self, bitrate: u32)
        ensures
            final(self).keyframe_pending() == old(self).keyframe_pending(),
    ;

    /// Request a keyframe be generated at the next encode call.
    fn request_keyframe(&mut self)
        ensures
            final(self).keyframe_pending(),
    ;
}

/// Trait for video decoders.
///
/// Implementations should use hardware acceleration where available:
/// Media Foundation or CUDA on Windows, VideoToolbox on macOS.
pub trait VideoDecoder: Send + Sync {
    /// Decode an encoded bitstream into a displayable frame.
    fn decode(&mut self, data: &[u8]) -> Result<DecodedFrame, DecodeError>;
}

/// A placeholder encoder that reports that no encoder is available.
pub struct StubEncoder;

impl VideoEncoder for StubEncoder {
    /// The stub never produces a frame, so the frame after any point would
    /// be a keyframe: one is always owed.
    open spec fn keyframe_pending(&self) -> bool {
        true
    }

    fn encode(&mut self, frame: &CapturedFrame) -> (r: Result<EncodedFrame, EncodeError>)
        ensures
            r matches Err(EncodeError::HardwareNotAvailable(m))
                && m@ == "No encoder implementation available"@,
    {
        Err(EncodeError::HardwareNotAvailable(String::from_str("No encoder implementation available")))
    }

    fn set_bitrate(&mut self, bitrate: u32) {
    }

    fn request_keyframe(&mut self) {
    }
}

/// A placeholder decoder that reports that no decoder is available.
pub struct StubDecoder;

impl VideoDecoder for StubDecoder {
    fn decode(&mut self, data: &[u8]) -> (r: Result<DecodedFrame, DecodeError>)
        ensures
            r matches Err(DecodeError::DecodingFailed(m))
                && m@ == "No decoder implementation available"@,
    {
        Err(DecodeError::DecodingFailed(String::from_str("No decoder implementation available")))
    }
}

} // verus!
