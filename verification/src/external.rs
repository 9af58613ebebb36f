//! The external programs that the downloader drives, and whether they are
//! at hand.

use vstd::prelude::*;
use crate::text::{from_chars, push_str};

verus! {

/// What can go wrong when an external program is run.
#[derive(Debug)]
pub enum ExternalToolError {
    ToolNotFound(String),
    ExecutionFailed(String),
    Timeout(String),
    Other(String),
}

/// An external program.
#[derive(Debug, Clone, Copy, PartialEq, Eq, Structural)]
pub enum ExternalTool {
    /// Extracts media from web pages.
    YtDlp,
    /// Accelerated downloader.
    Aria2c,
    /// Muxer and transcoder.
    FFmpeg,
}

/// The file name of a program.
pub open spec fn program_name(tool: ExternalTool) -> Seq<char> {
    match tool {
        ExternalTool::YtDlp => "yt-dlp"@,
        ExternalTool::Aria2c => "aria2c"@,
        ExternalTool::FFmpeg => "ffmpeg"@,
    }
}

/// The command that installs a program.
pub open spec fn install_hint(tool: ExternalTool) -> Seq<char> {
    match tool {
        ExternalTool::YtDlp => "pip install yt-dlp"@,
        ExternalTool::Aria2c => "brew install aria2"@,
        ExternalTool::FFmpeg => "brew install ffmpeg"@,
    }
}

impl ExternalTool {
    /// The file name of this program.
    pub fn executable_name(&self) -> (r: &'static str)
        ensures
            r@ == program_name(*self),
    {
        match self {
            ExternalTool::YtDlp => "yt-dlp",
            ExternalTool::Aria2c => "aria2c",
            ExternalTool::FFmpeg => "ffmpeg",
        }
    }

    /// The command that installs this program.
    pub fn install_command(&self) -> (r: &'static str)
        ensures
            r@ == install_hint(*self),
    {
        match self {
            ExternalTool::YtDlp => "pip install yt-dlp",
            ExternalTool::Aria2c => "brew install aria2",
            ExternalTool::FFmpeg => "brew install ffmpeg",
        }
    }
}

/// Which of the external programs are installed.
#[derive(Debug, Clone, Copy, PartialEq, Eq, Structural)]
pub struct DependencyStatus {
    pub ytdlp: bool,
    pub aria2c: bool,
    pub ffmpeg: bool,
}

/// Where each external program was found. A program that was looked for and
/// not found is remembered as `Some(None)`.
#[derive(Debug)]
pub struct ExternalToolManager {
    pub ytdlp: Option<Option<String>>,
    pub aria2c: Option<Option<String>>,
    pub ffmpeg: Option<Option<String>>,
}

impl ExternalToolManager {
    /// A manager that has looked for nothing yet.
    pub fn new() -> (m: ExternalToolManager)
        ensures
            m.ytdlp is None,
            m.aria2c is None,
            m.ffmpeg is None,
    {
        ExternalToolManager { ytdlp: None, aria2c: None, ffmpeg: None }
    }

    /// What is remembered of `tool`.
    pub open spec fn known(&self, tool: ExternalTool) -> Option<Option<String>> {
        match tool {
            ExternalTool::YtDlp => self.ytdlp,
            ExternalTool::Aria2c => self.aria2c,
            ExternalTool::FFmpeg => self.ffmpeg,
        }
    }

    /// Whether `tool` is known to be installed; `None` where it has not been
    /// looked for.
    pub fn cached_availability(&self, tool: ExternalTool) -> (r: Option<bool>)
        ensures
            r == match self.known(tool) {
                Some(found) => Some(found is Some),
                None => None,
            },
    {
        let entry = match tool {
            ExternalTool::YtDlp => &self.ytdlp,
            ExternalTool::Aria2c => &self.aria2c,
            ExternalTool::FFmpeg => &self.ffmpeg,
        };
        match entry {
            Some(found) => Some(found.is_some()),
            None => None,
        }
    }

    /// Remembers the outcome of looking for `tool`.
    pub fn record(&mut self, tool: ExternalTool, found: Option<String>)
        ensures
            final(self).known(tool) == Some(found),
            forall|other: ExternalTool|
                other != tool ==> final(self).known(other) == old(self).known(other),
    {
        match tool {
            ExternalTool::YtDlp => {
                self.ytdlp = Some(found);
            },
            ExternalTool::Aria2c => {
                self.aria2c = Some(found);
            },
            ExternalTool::FFmpeg => {
                self.ffmpeg = Some(found);
            },
        }
    }

    /// The status of all three programs, counting what was not looked for
    /// as missing.
    pub fn status(&self) -> (s: DependencyStatus)
        ensures
            s.ytdlp == (self.ytdlp matches Some(Some(_))),
            s.aria2c == (self.aria2c matches Some(Some(_))),
            s.ffmpeg == (self.ffmpeg matches Some(Some(_))),
    {
        DependencyStatus {
            ytdlp: matches!(self.ytdlp, Some(Some(_))),
            aria2c: matches!(self.aria2c, Some(Some(_))),
            ffmpeg: matches!(self.ffmpeg, Some(Some(_))),
        }
    }
}

/// Readiness of the system to download.
#[derive(Debug, Clone, Copy, PartialEq, Eq, Structural)]
pub enum SystemStatus {
    Ready,
    /// Some program is missing; each flag says whether that program is
    /// installed.
    MissingDependencies { ytdlp: bool, aria2c: bool, ffmpeg: bool },
    Unknown,
}

/// The names of the missing programs, joined by `", "`.
pub open spec fn missing_list(ytdlp: bool, aria2c: bool, ffmpeg: bool) -> Seq<char> {
    let first = if ytdlp {
        Seq::<char>::empty()
    } else {
        "yt-dlp"@
    };
    let second = if aria2c {
        first
    } else if first.len() == 0 {
        "aria2c"@
    } else {
        first + ", "@ + "aria2c"@
    };
    if ffmpeg {
        second
    } else if second.len() == 0 {
        "ffmpeg"@
    } else {
        second + ", "@ + "ffmpeg"@
    }
}

/// The description of a status.
pub open spec fn status_description(status: SystemStatus) -> Seq<char> {
    match status {
        SystemStatus::Ready => "システム準備完了"@,
        SystemStatus::MissingDependencies { ytdlp, aria2c, ffmpeg } => "依存関係が不足しています: "@
            + missing_list(ytdlp, aria2c, ffmpeg),
        SystemStatus::Unknown => "システム状態不明"@,
    }
}

impl SystemStatus {
    /// The status that a dependency check amounts to.
    pub fn from_dependencies(d: DependencyStatus) -> (s: SystemStatus)
        ensures
            s == if d.ytdlp && d.aria2c && d.ffmpeg {
                SystemStatus::Ready
            } else {
                SystemStatus::MissingDependencies {
                    ytdlp: d.ytdlp,
                    aria2c: d.aria2c,
                    ffmpeg: d.ffmpeg,
                }
            },
    {
        if d.ytdlp && d.aria2c && d.ffmpeg {
            SystemStatus::Ready
        } else {
            SystemStatus::MissingDependencies { ytdlp: d.ytdlp, aria2c: d.aria2c, ffmpeg: d.ffmpeg }
        }
    }

    /// Whether downloads can start.
    pub fn is_ready(&self) -> (r: bool)
        ensures
            r == (*self is Ready),
    {
        matches!(self, SystemStatus::Ready)
    }

    /// A sentence that describes the status and names what is missing.
    pub fn description(&self) -> (r: String)
        ensures
            r@ == status_description(*self),
    {
        match self {
            SystemStatus::Ready => "システム準備完了".to_owned(),
            SystemStatus::MissingDependencies { ytdlp, aria2c, ffmpeg } => {
                let mut out: Vec<char> = Vec::new();
                push_str(&mut out, "依存関係が不足しています: ");
                let mut any = false;
                if !*ytdlp {
                    push_str(&mut out, "yt-dlp");
                    any = true;
                }
                proof {
                    reveal_strlit("yt-dlp");
                    reveal_strlit("aria2c");
                    reveal_strlit("ffmpeg");
                }
                if !*aria2c {
                    if any {
                        push_str(&mut out, ", ");
                    }
                    push_str(&mut out, "aria2c");
                    any = true;
                }
                if !*ffmpeg {
                    if any {
                        push_str(&mut out, ", ");
                    }
                    push_str(&mut out, "ffmpeg");
                }
                from_chars(&out)
            },
            SystemStatus::Unknown => "システム状態不明".to_owned(),
        }
    }
}

} // verus!
