//! Names that the encoder is driven with.

use vstd::prelude::*;

verus! {

/// What can go wrong when a file is re-encoded.
#[derive(Debug)]
pub enum EncodingError {
    /// The encoder program was not found.
    FFmpegNotFound,
    /// The encoder ran and failed.
    EncodingFailed(String),
    /// A file could not be read or written.
    FileError(String),
    Other(String),
}

/// Speed against quality of an encoding run.
#[derive(Debug, Clone, Copy, PartialEq, Eq, Structural)]
pub enum EncodingPreset {
    UltraFast,
    VeryFast,
    Faster,
    Medium,
    Slow,
    VerySlow,
}

/// The encoder's name for a preset.
pub open spec fn preset_name(p: EncodingPreset) -> Seq<char> {
    match p {
        EncodingPreset::UltraFast => "ultrafast"@,
        EncodingPreset::VeryFast => "veryfast"@,
        EncodingPreset::Faster => "faster"@,
        EncodingPreset::Medium => "medium"@,
        EncodingPreset::Slow => "slow"@,
        EncodingPreset::VerySlow => "veryslow"@,
    }
}

impl EncodingPreset {
    /// The encoder's name for this preset.
    pub fn to_string(&self) -> (r: &'static str)
        ensures
            r@ == preset_name(*self),
    {
        match self {
            EncodingPreset::UltraFast => "ultrafast",
            EncodingPreset::VeryFast => "veryfast",
            EncodingPreset::Faster => "faster",
            EncodingPreset::Medium => "medium",
            EncodingPreset::Slow => "slow",
            EncodingPreset::VerySlow => "veryslow",
        }
    }
}

impl Default for EncodingPreset {
    fn default() -> (r: EncodingPreset)
        ensures
            r == EncodingPreset::Medium,
    {
        EncodingPreset::Medium
    }
}

/// Video codec of an encoding run.
#[derive(Debug, Clone, Copy, PartialEq, Eq, Structural)]
pub enum VideoFormat {
    H264,
    H265,
    VP9,
    AV1,
}

/// The encoder's software codec for a format.
pub open spec fn software_codec(f: VideoFormat) -> Seq<char> {
    match f {
        VideoFormat::H264 => "libx264"@,
        VideoFormat::H265 => "libx265"@,
        VideoFormat::VP9 => "libvpx-vp9"@,
        VideoFormat::AV1 => "libaom-av1"@,
    }
}

/// The encoder's hardware codec for a format, where there is one.
pub open spec fn hardware_codec(f: VideoFormat) -> Option<Seq<char>> {
    match f {
        VideoFormat::H264 => Some("h264_videotoolbox"@),
        VideoFormat::H265 => Some("hevc_videotoolbox"@),
        VideoFormat::VP9 => None,
        VideoFormat::AV1 => None,
    }
}

impl VideoFormat {
    /// The encoder's software codec for this format.
    pub fn codec_string(&self) -> (r: &'static str)
        ensures
            r@ == software_codec(*self),
    {
        match self {
            VideoFormat::H264 => "libx264",
            VideoFormat::H265 => "libx265",
            VideoFormat::VP9 => "libvpx-vp9",
            VideoFormat::AV1 => "libaom-av1",
        }
    }

    /// The encoder's hardware codec for this format, where there is one.
    pub fn hw_codec_string(&self) -> (r: Option<&'static str>)
        ensures
            r is Some <==> hardware_codec(*self) is Some,
            r matches Some(s) ==> s@ == hardware_codec(*self)->0,
    {
        match self {
            VideoFormat::H264 => Some("h264_videotoolbox"),
            VideoFormat::H265 => Some("hevc_videotoolbox"),
            VideoFormat::VP9 => None,
            VideoFormat::AV1 => None,
        }
    }
}

} // verus!
