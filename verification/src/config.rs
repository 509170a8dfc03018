//! Screen capture and streaming configuration.

use vstd::prelude::*;
use vstd::string::*;

verus! {

/// Codec type for video encoding.
#[derive(Debug, Clone, Copy, PartialEq, Eq, Structural)]
pub enum CodecType {
    H264,
    H265,
    VP8,
    VP9,
    AV1,
}

impl Default for CodecType {
    /// H.264 is the default codec.
    fn default() -> (r: Self)
        ensures
            r == CodecType::H264,
    {
        CodecType::H264
    }
}

/// The lower-case name of a codec, as it is written in messages: `h264`,
/// `h265`, `vp8`, `vp9`, `av1`.
pub open spec fn codec_label(c: CodecType) -> Seq<char> {
    match c {
        CodecType::H264 => "h264"@,
        CodecType::H265 => "h265"@,
        CodecType::VP8 => "vp8"@,
        CodecType::VP9 => "vp9"@,
        CodecType::AV1 => "av1"@,
    }
}

/// The codec a name stands for; a name that is none of the five stands for
/// the default codec, H.264.
pub open spec fn codec_of_label(label: Seq<char>) -> CodecType {
    if label == "h265"@ {
        CodecType::H265
    } else if label == "vp8"@ {
        CodecType::VP8
    } else if label == "vp9"@ {
        CodecType::VP9
    } else if label == "av1"@ {
        CodecType::AV1
    } else {
        CodecType::H264
    }
}

impl CodecType {
    /// The codec's lower-case name.
    pub fn label(&self) -> (r: String)
        ensures
            r@ == codec_label(*self),
    {
        match self {
            CodecType::H264 => String::from_str("h264"),
            CodecType::H265 => String::from_str("h265"),
            CodecType::VP8 => String::from_str("vp8"),
            CodecType::VP9 => String::from_str("vp9"),
            CodecType::AV1 => String::from_str("av1"),
        }
    }

    /// The codec a name stands for (H.264 for an unknown name).
    pub fn from_label(label: &String) -> (r: CodecType)
        ensures
            r == codec_of_label(label@),
    {
        if *label == String::from_str("h265") {
            CodecType::H265
        } else if *label == String::from_str("vp8") {
            CodecType::VP8
        } else if *label == String::from_str("vp9") {
            CodecType::VP9
        } else if *label == String::from_str("av1") {
            CodecType::AV1
        } else {
            CodecType::H264
        }
    }
}

/// Reading a codec's name gives back the codec.
pub proof fn codec_label_round_trips(c: CodecType)
    ensures
        codec_of_label(codec_label(c)) == c,
{
    reveal_strlit("h264");
    reveal_strlit("h265");
    reveal_strlit("vp8");
    reveal_strlit("vp9");
    reveal_strlit("av1");
    assert("h264"@[3] != "h265"@[3]);
    assert("h264"@.len() != "vp8"@.len());
    assert("h264"@.len() != "vp9"@.len());
    assert("h264"@.len() != "av1"@.len());
    assert("h265"@.len() != "vp8"@.len());
    assert("h265"@.len() != "vp9"@.len());
    assert("h265"@.len() != "av1"@.len());
    assert("vp8"@[2] != "vp9"@[2]);
    assert("vp8"@[0] != "av1"@[0]);
    assert("vp9"@[0] != "av1"@[0]);
}

/// Screen capture and streaming configuration.
#[derive(Debug, Clone)]
pub struct ScreenConfig {
    pub width: u32,
    pub height: u32,
    pub fps: u32,
    pub codec: CodecType,
}

impl Default for ScreenConfig {
    /// 1920x1080 at 60 frames per second, H.264.
    fn default() -> (r: Self)
        ensures
            r == (ScreenConfig { width: 1920, height: 1080, fps: 60, codec: CodecType::H264 }),
    {
        ScreenConfig { width: 1920, height: 1080, fps: 60, codec: CodecType::H264 }
    }
}

} // verus!
