//! What a download manager decides before and while a download runs.

use vstd::prelude::*;
use crate::content_type::ContentType;
use crate::text::{is_text, lowercase, lowercase_text, to_chars};

verus! {

/// Container format of a download.
#[derive(Debug, Clone, Copy, PartialEq, Eq, Structural)]
pub enum VideoFormat {
    MP4,
    WebM,
    MKV,
    /// The best that is offered.
    Best,
}

/// The container format that a lower-case name stands for.
pub open spec fn format_named(lower: Seq<char>) -> Option<VideoFormat> {
    if lower == "mp4"@ {
        Some(VideoFormat::MP4)
    } else if lower == "webm"@ {
        Some(VideoFormat::WebM)
    } else if lower == "mkv"@ {
        Some(VideoFormat::MKV)
    } else if lower == "best"@ {
        Some(VideoFormat::Best)
    } else {
        None
    }
}

/// The lower-case name of a container format.
pub open spec fn format_name(f: VideoFormat) -> Seq<char> {
    match f {
        VideoFormat::MP4 => "mp4"@,
        VideoFormat::WebM => "webm"@,
        VideoFormat::MKV => "mkv"@,
        VideoFormat::Best => "best"@,
    }
}

impl VideoFormat {
    /// The lower-case name of the format.
    pub fn name(&self) -> (r: &'static str)
        ensures
            r@ == format_name(*self),
    {
        match self {
            VideoFormat::MP4 => "mp4",
            VideoFormat::WebM => "webm",
            VideoFormat::MKV => "mkv",
            VideoFormat::Best => "best",
        }
    }

    /// The container format that the lower-case name `lower` stands for.
    pub fn from_lowercase_name(lower: &str) -> (r: Option<VideoFormat>)
        ensures
            r == format_named(lower@),
    {
        let l = to_chars(lower);
        if is_text(&l, "mp4") {
            Some(VideoFormat::MP4)
        } else if is_text(&l, "webm") {
            Some(VideoFormat::WebM)
        } else if is_text(&l, "mkv") {
            Some(VideoFormat::MKV)
        } else if is_text(&l, "best") {
            Some(VideoFormat::Best)
        } else {
            None
        }
    }

    /// Reads a container format from its name, whatever the case of its
    /// letters. An unknown name stands for no wish.
    pub fn parse_name(s: &str) -> (r: Option<VideoFormat>)
        ensures
            r == format_named(lowercase_text(s@)),
    {
        let lower = lowercase(s);
        VideoFormat::from_lowercase_name(lower.as_str())
    }
}

/// State of a download as its manager reports it.
#[derive(Debug, Clone, Copy, PartialEq, Eq, Structural)]
pub enum DownloadStatus {
    Initializing,
    Downloading,
    Paused,
    Completed,
    Error,
    Cancelled,
}

/// The name of a status.
pub open spec fn status_name(status: DownloadStatus) -> Seq<char> {
    match status {
        DownloadStatus::Initializing => "Initializing"@,
        DownloadStatus::Downloading => "Downloading"@,
        DownloadStatus::Paused => "Paused"@,
        DownloadStatus::Completed => "Completed"@,
        DownloadStatus::Error => "Error"@,
        DownloadStatus::Cancelled => "Cancelled"@,
    }
}

/// The status that a lower-case name stands for; an unknown name stands
/// for an error.
pub open spec fn status_named(lower: Seq<char>) -> DownloadStatus {
    if lower == "initializing"@ {
        DownloadStatus::Initializing
    } else if lower == "downloading"@ {
        DownloadStatus::Downloading
    } else if lower == "paused"@ {
        DownloadStatus::Paused
    } else if lower == "completed"@ {
        DownloadStatus::Completed
    } else if lower == "cancelled"@ {
        DownloadStatus::Cancelled
    } else {
        DownloadStatus::Error
    }
}

/// The name of a status in the foreign interface.
pub fn download_status_to_string(status: DownloadStatus) -> (r: &'static str)
    ensures
        r@ == status_name(status),
{
    match status {
        DownloadStatus::Initializing => "Initializing",
        DownloadStatus::Downloading => "Downloading",
        DownloadStatus::Paused => "Paused",
        DownloadStatus::Completed => "Completed",
        DownloadStatus::Error => "Error",
        DownloadStatus::Cancelled => "Cancelled",
    }
}

/// The status that the lower-case name `lower` stands for.
pub fn download_status_from_lowercase(lower: &str) -> (r: DownloadStatus)
    ensures
        r == status_named(lower@),
{
    let l = to_chars(lower);
    if is_text(&l, "initializing") {
        DownloadStatus::Initializing
    } else if is_text(&l, "downloading") {
        DownloadStatus::Downloading
    } else if is_text(&l, "paused") {
        DownloadStatus::Paused
    } else if is_text(&l, "completed") {
        DownloadStatus::Completed
    } else if is_text(&l, "cancelled") {
        DownloadStatus::Cancelled
    } else {
        DownloadStatus::Error
    }
}

/// Reads a status from its name in the foreign interface, whatever the
/// case of its letters.
pub fn string_to_download_status(s: &str) -> (r: DownloadStatus)
    ensures
        r == status_named(lowercase_text(s@)),
{
    let lower = lowercase(s);
    download_status_from_lowercase(lower.as_str())
}

/// Settings of a download manager.
#[derive(Debug)]
pub struct DownloadManagerConfig {
    pub max_concurrent_downloads: usize,
    pub temp_dir: Option<String>,
    pub auto_resume: bool,
    pub notify_on_completion: bool,
    pub auto_extract_archives: bool,
}

impl Default for DownloadManagerConfig {
    fn default() -> (c: DownloadManagerConfig)
        ensures
            c.max_concurrent_downloads == 3,
            c.temp_dir is None,
            c.auto_resume,
            c.notify_on_completion,
            !c.auto_extract_archives,
    {
        DownloadManagerConfig {
            max_concurrent_downloads: 3,
            temp_dir: None,
            auto_resume: true,
            notify_on_completion: true,
            auto_extract_archives: false,
        }
    }
}

/// The way in which a kind of content is downloaded.
#[derive(Debug, Clone, Copy, PartialEq, Eq, Structural)]
pub enum Route {
    /// By the HLS engine.
    Hls,
    /// By the DASH engine.
    Dash,
    /// By one plain HTTP request.
    Http,
    /// By an external program.
    External,
}

/// The way in which content of type `t` is downloaded.
pub fn route_for(t: ContentType) -> (r: Route)
    ensures
        r == match t {
            ContentType::HLS => Route::Hls,
            ContentType::DASH => Route::Dash,
            ContentType::MP4 => Route::Http,
            _ => Route::External,
        },
{
    match t {
        ContentType::HLS => Route::Hls,
        ContentType::DASH => Route::Dash,
        ContentType::MP4 => Route::Http,
        _ => Route::External,
    }
}

/// Seconds that a transfer still takes: what is left of `total` bytes at
/// `speed` bytes a second. There is no estimate without a positive speed,
/// nor once more than `total` bytes have arrived.
pub fn remaining_seconds(total: u64, downloaded: u64, speed: u64) -> (r: Option<u64>)
    ensures
        r == if speed > 0 && downloaded <= total {
            Some(((total - downloaded) / (speed as int)) as u64)
        } else {
            None
        },
{
    if speed > 0 && downloaded <= total {
        Some((total - downloaded) / speed)
    } else {
        None
    }
}

/// Progress of a transfer in thousandths; zero where the total is unknown
/// or zero, and never more than a thousand.
pub fn progress_permille(downloaded: u64, total: Option<u64>) -> (r: u64)
    ensures
        r == match total {
            Some(t) => if t == 0 {
                0
            } else if downloaded >= t {
                1000
            } else {
                (downloaded * 1000) / (t as int)
            },
            None => 0,
        },
        r <= 1000,
{
    match total {
        Some(t) => {
            if t == 0 {
                0
            } else if downloaded >= t {
                1000
            } else {
                let scaled: u128 = (downloaded as u128) * 1000;
                let r = scaled / (t as u128);
                assert(r <= 1000) by (nonlinear_arith)
                    requires
                        r == (downloaded * 1000) / (t as int),
                        0 <= downloaded < t,
                ;
                r as u64
            }
        },
        None => 0,
    }
}

} // verus!
