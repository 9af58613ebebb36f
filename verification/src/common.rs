//! Types shared by the HLS and DASH halves of the engine.

use vstd::prelude::*;

verus! {

/// The product of two 64-bit numbers, which always fits 128 bits.
pub fn product(a: u64, b: u64) -> (p: u128)
    ensures
        p == a * b,
{
    assert(a * b <= 0xffff_ffff_ffff_ffff * 0xffff_ffff_ffff_ffff) by (nonlinear_arith)
        requires
            0 <= a <= 0xffff_ffff_ffff_ffff,
            0 <= b <= 0xffff_ffff_ffff_ffff,
    ;
    (a as u128) * (b as u128)
}

/// How long a segment plays.
#[derive(Debug, Clone, Copy, PartialEq, Eq, Structural)]
pub enum SegmentDuration {
    /// Not stated by the manifest.
    Unknown,
    /// Seconds, held as the bit pattern of an IEEE 754 binary32 number.
    /// The value is carried through exactly and never interpreted here.
    SecondsBits(u32),
    /// `ticks / timescale` seconds.
    Ticks { ticks: u64, timescale: u64 },
}

/// One fetchable chunk of a rendition.
#[derive(Debug)]
pub struct StreamSegment {
    /// Absolute URL of the segment.
    pub url: String,
    /// Playing time.
    pub duration: SegmentDuration,
    /// Position in the reassembly order.
    pub sequence: u64,
    /// Byte range `(start, end)` inside the resource, if any: the
    /// segment's offset and the offset plus its length.
    pub byte_range: Option<(u64, u64)>,
    /// Title given by the playlist.
    pub title: Option<String>,
    /// Whether this is the initialization segment of its rendition.
    pub is_initialization: bool,
}

/// Sequence numbers strictly increase along `segments`.
pub open spec fn sequences_increase(segments: Seq<StreamSegment>) -> bool {
    forall|i: int, j: int|
        0 <= i < j < segments.len() ==> (#[trigger] segments[i]).sequence < (
        #[trigger] segments[j]).sequence
}

/// User settings of one streaming download.
#[derive(Debug)]
pub struct StreamingOptions {
    /// Directory that receives the segment files.
    pub temp_dir: String,
    /// Path of the merged output.
    pub output_file: String,
    /// Width of the fetch pool.
    pub max_concurrent_downloads: usize,
    /// Retries per segment after the first attempt.
    pub retry_count: u32,
    /// Timeout of one fetch attempt, in seconds.
    pub segment_timeout_secs: u64,
    /// Seconds between manifest reloads of a live stream.
    pub manifest_reload_interval_secs: Option<u64>,
    /// Download no audio.
    pub video_only: bool,
    /// Download no video.
    pub audio_only: bool,
    /// Largest wanted picture, as `(width, height)`.
    pub max_resolution: Option<(u32, u32)>,
    /// Smallest wanted picture, as `(width, height)`.
    pub min_resolution: Option<(u32, u32)>,
    /// Speed limit in bytes per second.
    pub bandwidth_limit: Option<u64>,
    /// Largest wanted bitrate in kbit/s.
    pub max_bitrate: Option<u64>,
    /// Smallest wanted bitrate in kbit/s.
    pub min_bitrate: Option<u64>,
    /// Remove the segment files after a successful merge.
    pub cleanup_temp_files: bool,
}

/// Smallest accepted pool width.
pub const MIN_CONCURRENT_DOWNLOADS: usize = 1;

/// Largest accepted pool width.
pub const MAX_CONCURRENT_DOWNLOADS: usize = 32;

/// `n` brought into the accepted range of pool widths.
pub open spec fn clamped_width(n: int) -> int {
    if n < MIN_CONCURRENT_DOWNLOADS {
        MIN_CONCURRENT_DOWNLOADS as int
    } else if n > MAX_CONCURRENT_DOWNLOADS {
        MAX_CONCURRENT_DOWNLOADS as int
    } else {
        n
    }
}

impl StreamingOptions {
    /// The default settings for a download into `output_file` that keeps its
    /// segments under `temp_dir`.
    pub fn with_paths(temp_dir: String, output_file: String) -> (o: StreamingOptions)
        ensures
            o == (StreamingOptions {
                temp_dir,
                output_file,
                max_concurrent_downloads: 4,
                retry_count: 3,
                segment_timeout_secs: 30,
                manifest_reload_interval_secs: None,
                video_only: false,
                audio_only: false,
                max_resolution: None,
                min_resolution: None,
                bandwidth_limit: None,
                max_bitrate: None,
                min_bitrate: None,
                cleanup_temp_files: true,
            }),
    {
        StreamingOptions {
            temp_dir,
            output_file,
            max_concurrent_downloads: 4,
            retry_count: 3,
            segment_timeout_secs: 30,
            manifest_reload_interval_secs: None,
            video_only: false,
            audio_only: false,
            max_resolution: None,
            min_resolution: None,
            bandwidth_limit: None,
            max_bitrate: None,
            min_bitrate: None,
            cleanup_temp_files: true,
        }
    }

    /// The pool width that is actually used: the configured one, clamped.
    pub fn pool_width(&self) -> (w: usize)
        ensures
            w == clamped_width(self.max_concurrent_downloads as int),
            MIN_CONCURRENT_DOWNLOADS <= w <= MAX_CONCURRENT_DOWNLOADS,
    {
        if self.max_concurrent_downloads < MIN_CONCURRENT_DOWNLOADS {
            MIN_CONCURRENT_DOWNLOADS
        } else if self.max_concurrent_downloads > MAX_CONCURRENT_DOWNLOADS {
            MAX_CONCURRENT_DOWNLOADS
        } else {
            self.max_concurrent_downloads
        }
    }
}

/// Kind of media that a stream carries.
#[derive(Debug, Clone, Copy, PartialEq, Eq, Structural)]
pub enum StreamType {
    Video,
    Audio,
    Subtitle,
    /// Video and audio in one stream.
    Muxed,
    Other,
}

/// One quality level of a stream.
#[derive(Debug)]
pub struct QualityLevel {
    pub id: String,
    /// `(width, height)`.
    pub resolution: Option<(u32, u32)>,
    /// kbit/s.
    pub bitrate: u64,
    pub codec: Option<String>,
    pub language: Option<String>,
    pub stream_type: StreamType,
}

/// Content protection scheme.
#[derive(Debug, Clone, Copy, PartialEq, Eq, Structural)]
pub enum DrmType {
    Widevine,
    PlayReady,
    FairPlay,
    Other,
    /// The content is not protected.
    Unprotected,
}

impl Default for DrmType {
    fn default() -> (r: DrmType)
        ensures
            r == DrmType::Unprotected,
    {
        DrmType::Unprotected
    }
}

/// Program that merges the segment files.
#[derive(Debug, Clone, Copy, PartialEq, Eq, Structural)]
pub enum MuxerType {
    FFmpeg,
    MP4Box,
    Other,
}

impl Default for MuxerType {
    fn default() -> (r: MuxerType)
        ensures
            r == MuxerType::FFmpeg,
    {
        MuxerType::FFmpeg
    }
}

/// What can go wrong in a streaming download.
#[derive(Debug)]
pub enum StreamingError {
    /// The manifest is malformed or unreadable. Fatal.
    ManifestParseError(String),
    /// No rendition is left to download. Fatal.
    NoSuitableRendition,
    /// A segment could not be fetched within its retries. Fatal to the run.
    SegmentDownloadError(String),
    /// The server refused a resume range. Recovered once per segment.
    RangeNotSatisfiable,
    /// The resume state is unreadable or belongs to another request.
    StateCorruptionError(String),
    /// The muxer failed. Fatal; the segment files stay on disk.
    MergeError(String),
    /// A file operation failed.
    FileError(String),
    /// An HTTP exchange failed.
    HttpError(String),
    /// The content is protected.
    DrmError(String),
    /// Anything else.
    OtherError(String),
}

impl StreamingError {
    /// Whether a run that meets this error can go on: only a refused resume
    /// range and a bad resume state are recovered from.
    pub fn is_recoverable(&self) -> (r: bool)
        ensures
            r == (*self is RangeNotSatisfiable || *self is StateCorruptionError),
    {
        match self {
            StreamingError::RangeNotSatisfiable => true,
            StreamingError::StateCorruptionError(_) => true,
            _ => false,
        }
    }
}

} // verus!
