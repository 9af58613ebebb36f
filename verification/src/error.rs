//! Error codes of the downloader and the errors that carry them.

use vstd::prelude::*;
use crate::content_type::{ContentType, detected_type};
use crate::text::{starts_with, starts_with_text, to_chars};

verus! {

/// Class of a failure, as reported across interfaces.
#[derive(Debug, Clone, Copy, PartialEq, Eq, Structural)]
pub enum ErrorCode {
    InvalidUrl,
    NetworkError,
    FileSystemError,
    DependencyError,
    UnknownError,
}

/// The number that stands for an error code. Zero stands for no error and
/// belongs to none.
pub open spec fn code_number(code: ErrorCode) -> int {
    match code {
        ErrorCode::InvalidUrl => 1,
        ErrorCode::NetworkError => 2,
        ErrorCode::FileSystemError => 3,
        ErrorCode::DependencyError => 4,
        ErrorCode::UnknownError => 999,
    }
}

/// The name of an error code.
pub open spec fn code_name(code: ErrorCode) -> Seq<char> {
    match code {
        ErrorCode::InvalidUrl => "InvalidUrl"@,
        ErrorCode::NetworkError => "NetworkError"@,
        ErrorCode::FileSystemError => "FileSystemError"@,
        ErrorCode::DependencyError => "DependencyError"@,
        ErrorCode::UnknownError => "UnknownError"@,
    }
}

impl ErrorCode {
    /// The number that stands for this code.
    pub fn code(&self) -> (n: i32)
        ensures
            n == code_number(*self),
            n != 0,
    {
        match self {
            ErrorCode::InvalidUrl => 1,
            ErrorCode::NetworkError => 2,
            ErrorCode::FileSystemError => 3,
            ErrorCode::DependencyError => 4,
            ErrorCode::UnknownError => 999,
        }
    }

    /// The name of this code.
    pub fn name(&self) -> (r: &'static str)
        ensures
            r@ == code_name(*self),
    {
        match self {
            ErrorCode::InvalidUrl => "InvalidUrl",
            ErrorCode::NetworkError => "NetworkError",
            ErrorCode::FileSystemError => "FileSystemError",
            ErrorCode::DependencyError => "DependencyError",
            ErrorCode::UnknownError => "UnknownError",
        }
    }

    /// The name of this code as an owned string.
    pub fn to_string(&self) -> (r: String)
        ensures
            r@ == code_name(*self),
    {
        self.name().to_owned()
    }
}

/// The name of an error code in the foreign interface.
pub fn error_code_to_string(code: ErrorCode) -> (r: &'static str)
    ensures
        r@ == code_name(code),
{
    code.name()
}

/// A failure of the downloader, with its detail.
#[derive(Debug)]
pub enum DownloaderError {
    InvalidUrl(String),
    NetworkError(String),
    FileSystemError(String),
    DependencyError(String),
    UnknownError(String),
    /// An input or output operation failed.
    IoError(String),
    /// A URL could not be parsed.
    UrlParseError(String),
    /// An HTTP exchange failed.
    HttpError(String),
    /// A JSON document could not be read or written.
    JsonError(String),
}

/// The code under which an error is reported.
pub open spec fn code_of(e: DownloaderError) -> ErrorCode {
    match e {
        DownloaderError::InvalidUrl(_) => ErrorCode::InvalidUrl,
        DownloaderError::NetworkError(_) | DownloaderError::HttpError(_) => ErrorCode::NetworkError,
        DownloaderError::FileSystemError(_) | DownloaderError::IoError(_) => ErrorCode::FileSystemError,
        DownloaderError::DependencyError(_) => ErrorCode::DependencyError,
        DownloaderError::UnknownError(_)
        | DownloaderError::UrlParseError(_)
        | DownloaderError::JsonError(_) => ErrorCode::UnknownError,
    }
}

impl DownloaderError {
    /// The code under which this error is reported.
    pub fn error_code(&self) -> (c: ErrorCode)
        ensures
            c == code_of(*self),
    {
        match self {
            DownloaderError::InvalidUrl(_) => ErrorCode::InvalidUrl,
            DownloaderError::NetworkError(_) => ErrorCode::NetworkError,
            DownloaderError::HttpError(_) => ErrorCode::NetworkError,
            DownloaderError::FileSystemError(_) => ErrorCode::FileSystemError,
            DownloaderError::IoError(_) => ErrorCode::FileSystemError,
            DownloaderError::DependencyError(_) => ErrorCode::DependencyError,
            DownloaderError::UnknownError(_) => ErrorCode::UnknownError,
            DownloaderError::UrlParseError(_) => ErrorCode::UnknownError,
            DownloaderError::JsonError(_) => ErrorCode::UnknownError,
        }
    }
}

/// A URL that a download can start from: it begins with `http://` or
/// `https://`.
pub open spec fn is_http_url(url: Seq<char>) -> bool {
    starts_with_text(url, "http://"@) || starts_with_text(url, "https://"@)
}

/// Whether a download can start from `url`.
pub fn check_http_url(url: &str) -> (r: bool)
    ensures
        r == is_http_url(url@),
{
    let u = to_chars(url);
    starts_with(&u, "http://") || starts_with(&u, "https://")
}

/// Detects the content type behind `url`. Anything but an HTTP or HTTPS URL
/// is refused as invalid, with the URL as the detail of the error.
pub fn detect_content_type(url: &str) -> (r: Result<ContentType, DownloaderError>)
    ensures
        is_http_url(url@) ==> r == Ok::<ContentType, DownloaderError>(detected_type(url@)),
        !is_http_url(url@) ==> (r matches Err(DownloaderError::InvalidUrl(detail)) && detail@
            == url@),
{
    if check_http_url(url) {
        Ok(ContentType::detect_from_url(url))
    } else {
        Err(DownloaderError::InvalidUrl(url.to_owned()))
    }
}

} // verus!
