//! Kinds of downloadable content and how a URL or a name maps to one.

use vstd::prelude::*;
use crate::text::{
    contains, contains_text, ends_with, ends_with_text, is_text, lowercase, lowercase_text,
    push_str, to_chars, from_chars,
};

verus! {

/// Kind of content behind a URL.
#[derive(Debug, Clone, Copy, PartialEq, Eq, Structural)]
pub enum ContentType {
    /// A plain MP4 file.
    MP4,
    /// HTTP Live Streaming.
    HLS,
    /// Dynamic Adaptive Streaming over HTTP.
    DASH,
    YouTube,
    /// Protected content.
    DrmProtected,
    Unknown,
}

/// The content type that the text of a URL points to.
pub open spec fn detected_type(url: Seq<char>) -> ContentType {
    if contains_text(url, "youtube.com"@) || contains_text(url, "youtu.be"@) {
        ContentType::YouTube
    } else if ends_with_text(url, ".mp4"@) {
        ContentType::MP4
    } else if ends_with_text(url, ".m3u8"@) {
        ContentType::HLS
    } else if ends_with_text(url, ".mpd"@) {
        ContentType::DASH
    } else {
        ContentType::Unknown
    }
}

/// The display name of a content type.
pub open spec fn display_name(t: ContentType) -> Seq<char> {
    match t {
        ContentType::MP4 => "MP4"@,
        ContentType::HLS => "HLS"@,
        ContentType::DASH => "DASH"@,
        ContentType::YouTube => "YouTube"@,
        ContentType::DrmProtected => "DrmProtected"@,
        ContentType::Unknown => "Unknown"@,
    }
}

/// The content type that a lower-case name stands for.
pub open spec fn type_named(lower: Seq<char>) -> Option<ContentType> {
    if lower == "mp4"@ {
        Some(ContentType::MP4)
    } else if lower == "hls"@ {
        Some(ContentType::HLS)
    } else if lower == "dash"@ {
        Some(ContentType::DASH)
    } else if lower == "youtube"@ {
        Some(ContentType::YouTube)
    } else if lower == "drm"@ || lower == "drmprotected"@ {
        Some(ContentType::DrmProtected)
    } else if lower == "unknown"@ {
        Some(ContentType::Unknown)
    } else {
        None
    }
}

/// The content type that a lower-case name stands for in the foreign
/// interface, which knows no protected content and no failure.
pub open spec fn interface_type_named(lower: Seq<char>) -> ContentType {
    if lower == "mp4"@ {
        ContentType::MP4
    } else if lower == "hls"@ {
        ContentType::HLS
    } else if lower == "dash"@ {
        ContentType::DASH
    } else if lower == "youtube"@ {
        ContentType::YouTube
    } else {
        ContentType::Unknown
    }
}

impl ContentType {
    /// Detects the content type from the text of a URL.
    pub fn detect_from_url(url: &str) -> (t: ContentType)
        ensures
            t == detected_type(url@),
    {
        let u = to_chars(url);
        if contains(&u, "youtube.com") || contains(&u, "youtu.be") {
            ContentType::YouTube
        } else if ends_with(&u, ".mp4") {
            ContentType::MP4
        } else if ends_with(&u, ".m3u8") {
            ContentType::HLS
        } else if ends_with(&u, ".mpd") {
            ContentType::DASH
        } else {
            ContentType::Unknown
        }
    }

    /// Whether the content is video: everything but `Unknown`.
    pub fn is_video(&self) -> (r: bool)
        ensures
            r == !(*self is Unknown),
    {
        match self {
            ContentType::Unknown => false,
            _ => true,
        }
    }

    /// Whether the content is delivered as a segmented stream.
    pub fn is_streaming(&self) -> (r: bool)
        ensures
            r == (*self is HLS || *self is DASH),
    {
        match self {
            ContentType::HLS | ContentType::DASH => true,
            _ => false,
        }
    }

    /// Whether the content is protected.
    pub fn is_drm_protected(&self) -> (r: bool)
        ensures
            r == (*self is DrmProtected),
    {
        match self {
            ContentType::DrmProtected => true,
            _ => false,
        }
    }

    /// The display name.
    pub fn name(&self) -> (r: &'static str)
        ensures
            r@ == display_name(*self),
    {
        match self {
            ContentType::MP4 => "MP4",
            ContentType::HLS => "HLS",
            ContentType::DASH => "DASH",
            ContentType::YouTube => "YouTube",
            ContentType::DrmProtected => "DrmProtected",
            ContentType::Unknown => "Unknown",
        }
    }

    /// The display name as an owned string.
    pub fn to_string(&self) -> (r: String)
        ensures
            r@ == display_name(*self),
    {
        self.name().to_owned()
    }

    /// The content type that the lower-case name `lower` stands for.
    pub fn from_lowercase_name(lower: &str) -> (r: Option<ContentType>)
        ensures
            r == type_named(lower@),
    {
        let l = to_chars(lower);
        if is_text(&l, "mp4") {
            Some(ContentType::MP4)
        } else if is_text(&l, "hls") {
            Some(ContentType::HLS)
        } else if is_text(&l, "dash") {
            Some(ContentType::DASH)
        } else if is_text(&l, "youtube") {
            Some(ContentType::YouTube)
        } else if is_text(&l, "drm") || is_text(&l, "drmprotected") {
            Some(ContentType::DrmProtected)
        } else if is_text(&l, "unknown") {
            Some(ContentType::Unknown)
        } else {
            None
        }
    }

    /// Reads a content type from its name, whatever the case of its
    /// letters. An unknown name is reported with the name in the message.
    pub fn parse_name(s: &str) -> (r: Result<ContentType, String>)
        ensures
            match type_named(lowercase_text(s@)) {
                Some(t) => r == Ok::<ContentType, String>(t),
                None => r is Err && r->Err_0@ == "Invalid content type: "@ + s@,
            },
    {
        let lower = lowercase(s);
        match ContentType::from_lowercase_name(lower.as_str()) {
            Some(t) => Ok(t),
            None => {
                let mut message: Vec<char> = Vec::new();
                push_str(&mut message, "Invalid content type: ");
                push_str(&mut message, s);
                Err(from_chars(&message))
            },
        }
    }
}

impl std::str::FromStr for ContentType {
    type Err = String;

    /// Reads a content type from its name, as `parse_name` does.
    fn from_str(s: &str) -> (r: Result<ContentType, String>)
        ensures
            match type_named(lowercase_text(s@)) {
                Some(t) => r == Ok::<ContentType, String>(t),
                None => r is Err && r->Err_0@ == "Invalid content type: "@ + s@,
            },
    {
        ContentType::parse_name(s)
    }
}

/// The name of a content type in the foreign interface.
pub fn content_type_to_string(content_type: ContentType) -> (r: &'static str)
    ensures
        r@ == display_name(content_type),
{
    content_type.name()
}

/// The content type that the lower-case name `lower` stands for in the
/// foreign interface.
pub fn content_type_from_lowercase(lower: &str) -> (r: ContentType)
    ensures
        r == interface_type_named(lower@),
{
    let l = to_chars(lower);
    if is_text(&l, "mp4") {
        ContentType::MP4
    } else if is_text(&l, "hls") {
        ContentType::HLS
    } else if is_text(&l, "dash") {
        ContentType::DASH
    } else if is_text(&l, "youtube") {
        ContentType::YouTube
    } else {
        ContentType::Unknown
    }
}

/// Reads a content type from its name in the foreign interface, whatever
/// the case of its letters. Any other name is `Unknown`.
pub fn string_to_content_type(s: &str) -> (r: ContentType)
    ensures
        r == interface_type_named(lowercase_text(s@)),
{
    let lower = lowercase(s);
    content_type_from_lowercase(lower.as_str())
}

} // verus!
