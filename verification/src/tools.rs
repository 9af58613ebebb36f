//! Handles on the external programs: where each one lives.

use vstd::prelude::*;
use std::path::PathBuf;

verus! {

/// `std::path::PathBuf`, carried through without looking inside.
#[verifier::external_type_specification]
#[verifier::external_body]
pub struct ExPathBuf(std::path::PathBuf);

/// The accelerated downloader.
#[derive(Debug)]
pub struct Aria2cTool {
    executable_path: PathBuf,
}

impl Aria2cTool {
    /// The program at `path`.
    pub fn with_path(path: PathBuf) -> (t: Aria2cTool)
        ensures
            t.path() == path,
    {
        Aria2cTool { executable_path: path }
    }

    /// Where the program lives.
    pub closed spec fn path(&self) -> PathBuf {
        self.executable_path
    }

    /// Where the program lives.
    pub fn executable_path(&self) -> (p: &PathBuf)
        ensures
            *p == self.path(),
    {
        &self.executable_path
    }
}

/// The muxer and transcoder.
#[derive(Debug)]
pub struct FFmpegTool {
    executable_path: PathBuf,
}

impl FFmpegTool {
    /// The program at `path`.
    pub fn with_path(path: PathBuf) -> (t: FFmpegTool)
        ensures
            t.path() == path,
    {
        FFmpegTool { executable_path: path }
    }

    /// Where the program lives.
    pub closed spec fn path(&self) -> PathBuf {
        self.executable_path
    }

    /// Where the program lives.
    pub fn executable_path(&self) -> (p: &PathBuf)
        ensures
            *p == self.path(),
    {
        &self.executable_path
    }
}

/// The media extractor.
#[derive(Debug)]
pub struct YtDlpTool {
    executable_path: PathBuf,
}

impl YtDlpTool {
    /// The program at `path`.
    pub fn with_path(path: PathBuf) -> (t: YtDlpTool)
        ensures
            t.path() == path,
    {
        YtDlpTool { executable_path: path }
    }

    /// Where the program lives.
    pub closed spec fn path(&self) -> PathBuf {
        self.executable_path
    }

    /// Where the program lives.
    pub fn executable_path(&self) -> (p: &PathBuf)
        ensures
            *p == self.path(),
    {
        &self.executable_path
    }
}

/// The encoder front end: the transcoder it drives.
#[derive(Debug)]
pub struct EncodingManager {
    ffmpeg_path: PathBuf,
}

impl EncodingManager {
    /// A manager that drives the transcoder at `ffmpeg_path`.
    pub fn with_ffmpeg(ffmpeg_path: PathBuf) -> (m: EncodingManager)
        ensures
            m.ffmpeg() == ffmpeg_path,
    {
        EncodingManager { ffmpeg_path }
    }

    /// Where the transcoder lives.
    pub closed spec fn ffmpeg(&self) -> PathBuf {
        self.ffmpeg_path
    }

    /// Where the transcoder lives.
    pub fn ffmpeg_path(&self) -> (p: &PathBuf)
        ensures
            *p == self.ffmpeg(),
    {
        &self.ffmpeg_path
    }
}

/// Converts finished downloads to H.265.
#[derive(Debug)]
pub struct H265Converter {
    encoding_manager: EncodingManager,
}

impl H265Converter {
    /// A converter on top of `encoding_manager`.
    pub fn with_manager(encoding_manager: EncodingManager) -> (c: H265Converter)
        ensures
            c.manager() == encoding_manager,
    {
        H265Converter { encoding_manager }
    }

    /// The encoder front end in use.
    pub closed spec fn manager(&self) -> EncodingManager {
        self.encoding_manager
    }

    /// Whether the converter can be used. A converter exists only once its
    /// transcoder was found, so it always can.
    pub fn is_available(&self) -> (r: bool)
        ensures
            r,
    {
        true
    }
}

} // verus!
