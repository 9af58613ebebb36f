//! What the muxer is handed: the list of segment files and its arguments.

use vstd::prelude::*;
use crate::common::StreamingError;
use crate::text::{from_chars, push_all, push_str, replace_all, replace_text, to_chars};

verus! {

/// The line of the muxer's input list for the file at `path`:
/// `file '<path>'`, with every `'` inside the path written as `'\''`.
pub open spec fn list_line(path: Seq<char>) -> Seq<char> {
    "file '"@ + replace_text(path, "'"@, "'\\''"@) + "'\n"@
}

/// The muxer's input list for `paths`: one line per file, in order.
pub open spec fn list_text(paths: Seq<String>) -> Seq<char>
    decreases paths.len(),
{
    if paths.len() == 0 {
        Seq::empty()
    } else {
        list_text(paths.drop_last()) + list_line(paths.last()@)
    }
}

/// Writes the muxer's input list for the segment files `paths`, which are
/// concatenated in exactly this order. An empty list is a merge error.
pub fn concat_list(paths: &Vec<String>) -> (r: Result<String, StreamingError>)
    ensures
        paths.len() == 0 ==> r matches Err(StreamingError::MergeError(_)),
        paths.len() > 0 ==> r is Ok && r->Ok_0@ == list_text(paths@),
{
    if paths.len() == 0 {
        return Err(StreamingError::MergeError("no segments to merge".to_owned()));
    }
    let escaped_quote = to_chars("'\\''");
    let mut out: Vec<char> = Vec::new();
    let mut i: usize = 0;
    while i < paths.len()
        invariant
            i <= paths.len(),
            escaped_quote@ == "'\\''"@,
            out@ == list_text(paths@.take(i as int)),
        decreases paths.len() - i,
    {
        let path = to_chars(paths[i].as_str());
        push_str(&mut out, "file '");
        push_all(&mut out, &replace_all(&path, "'", &escaped_quote));
        push_str(&mut out, "'\n");
        proof {
            assert(paths@.take(i + 1).drop_last() == paths@.take(i as int));
        }
        i = i + 1;
    }
    assert(paths@.take(paths.len() as int) == paths@);
    Ok(from_chars(&out))
}

/// The texts of a list of strings.
pub open spec fn texts(args: Seq<String>) -> Seq<Seq<char>> {
    args.map_values(|a: String| a@)
}

/// The muxer's arguments that concatenate the files of the list at
/// `list_path` into `output` without re-encoding. The muxer is told to
/// report errors only, so that a clean run leaves its error stream empty.
pub open spec fn concat_arguments_of(list_path: Seq<char>, output: Seq<char>) -> Seq<Seq<char>> {
    seq![
        "-loglevel"@,
        "error"@,
        "-f"@,
        "concat"@,
        "-safe"@,
        "0"@,
        "-i"@,
        list_path,
        "-c"@,
        "copy"@,
        output,
    ]
}

/// The muxer's arguments that put the video track at `video` and the
/// audio track at `audio` into `output` without re-encoding, replacing an
/// existing file and reporting errors only.
pub open spec fn mux_arguments_of(video: Seq<char>, audio: Seq<char>, output: Seq<char>) -> Seq<
    Seq<char>,
> {
    seq![
        "-loglevel"@,
        "error"@,
        "-i"@,
        video,
        "-i"@,
        audio,
        "-c"@,
        "copy"@,
        "-movflags"@,
        "faststart"@,
        "-y"@,
        output,
    ]
}

/// Appends one argument.
fn push_argument(args: &mut Vec<String>, argument: &str)
    ensures
        texts(final(args)@) == texts(old(args)@).push(argument@),
{
    args.push(argument.to_owned());
    assert(texts(args@) =~= texts(old(args)@).push(argument@));
}

/// The muxer's arguments for concatenating the files of the list at
/// `list_path` into `output`.
pub fn concat_arguments(list_path: &str, output: &str) -> (args: Vec<String>)
    ensures
        texts(args@) == concat_arguments_of(list_path@, output@),
{
    let mut args: Vec<String> = Vec::new();
    assert(texts(args@) =~= Seq::<Seq<char>>::empty());
    push_argument(&mut args, "-loglevel");
    push_argument(&mut args, "error");
    push_argument(&mut args, "-f");
    push_argument(&mut args, "concat");
    push_argument(&mut args, "-safe");
    push_argument(&mut args, "0");
    push_argument(&mut args, "-i");
    push_argument(&mut args, list_path);
    push_argument(&mut args, "-c");
    push_argument(&mut args, "copy");
    push_argument(&mut args, output);
    assert(texts(args@) =~= concat_arguments_of(list_path@, output@));
    args
}

/// The muxer's arguments for muxing a video and an audio track into
/// `output`.
pub fn mux_arguments(video: &str, audio: &str, output: &str) -> (args: Vec<String>)
    ensures
        texts(args@) == mux_arguments_of(video@, audio@, output@),
{
    let mut args: Vec<String> = Vec::new();
    assert(texts(args@) =~= Seq::<Seq<char>>::empty());
    push_argument(&mut args, "-loglevel");
    push_argument(&mut args, "error");
    push_argument(&mut args, "-i");
    push_argument(&mut args, video);
    push_argument(&mut args, "-i");
    push_argument(&mut args, audio);
    push_argument(&mut args, "-c");
    push_argument(&mut args, "copy");
    push_argument(&mut args, "-movflags");
    push_argument(&mut args, "faststart");
    push_argument(&mut args, "-y");
    push_argument(&mut args, output);
    assert(texts(args@) =~= mux_arguments_of(video@, audio@, output@));
    args
}

/// Container of the output file.
#[derive(Debug, Clone, Copy, PartialEq, Eq, Structural)]
pub enum OutputFormat {
    Mp4,
    Mkv,
    /// Audio only.
    Mp3,
}

/// The file extension of an output format.
pub open spec fn extension_of(format: OutputFormat) -> Seq<char> {
    match format {
        OutputFormat::Mp4 => "mp4"@,
        OutputFormat::Mkv => "mkv"@,
        OutputFormat::Mp3 => "mp3"@,
    }
}

/// How the muxer treats the streams for an output format: MP4 keeps the
/// video, re-encodes the audio to AAC and is laid out for playback while
/// loading; MKV keeps both streams; MP3 drops the video and encodes the
/// audio.
pub open spec fn codec_arguments_of(format: OutputFormat) -> Seq<Seq<char>> {
    match format {
        OutputFormat::Mp4 => seq![
            "-c:v"@,
            "copy"@,
            "-c:a"@,
            "aac"@,
            "-movflags"@,
            "faststart"@,
        ],
        OutputFormat::Mkv => seq!["-c:v"@, "copy"@, "-c:a"@, "copy"@],
        OutputFormat::Mp3 => seq!["-vn"@, "-c:a"@, "libmp3lame"@, "-q:a"@, "2"@],
    }
}

/// The muxer's arguments that concatenate the files of the list at
/// `list_path` into `output` in the given format, replacing an existing
/// file and reporting errors only.
pub open spec fn format_arguments_of(
    format: OutputFormat,
    list_path: Seq<char>,
    output: Seq<char>,
) -> Seq<Seq<char>> {
    seq!["-loglevel"@, "error"@, "-f"@, "concat"@, "-safe"@, "0"@, "-i"@, list_path]
        + codec_arguments_of(format) + seq!["-y"@, output]
}

impl OutputFormat {
    /// The file extension of the format.
    pub fn extension(&self) -> (r: &'static str)
        ensures
            r@ == extension_of(*self),
    {
        match self {
            OutputFormat::Mp4 => "mp4",
            OutputFormat::Mkv => "mkv",
            OutputFormat::Mp3 => "mp3",
        }
    }
}

/// The muxer's arguments for concatenating the files of the list at
/// `list_path` into `output` in the given format.
pub fn concat_arguments_for(format: OutputFormat, list_path: &str, output: &str) -> (args: Vec<
    String,
>)
    ensures
        texts(args@) == format_arguments_of(format, list_path@, output@),
{
    let mut args: Vec<String> = Vec::new();
    assert(texts(args@) =~= Seq::<Seq<char>>::empty());
    push_argument(&mut args, "-loglevel");
    push_argument(&mut args, "error");
    push_argument(&mut args, "-f");
    push_argument(&mut args, "concat");
    push_argument(&mut args, "-safe");
    push_argument(&mut args, "0");
    push_argument(&mut args, "-i");
    push_argument(&mut args, list_path);
    match format {
        OutputFormat::Mp4 => {
            push_argument(&mut args, "-c:v");
            push_argument(&mut args, "copy");
            push_argument(&mut args, "-c:a");
            push_argument(&mut args, "aac");
            push_argument(&mut args, "-movflags");
            push_argument(&mut args, "faststart");
        },
        OutputFormat::Mkv => {
            push_argument(&mut args, "-c:v");
            push_argument(&mut args, "copy");
            push_argument(&mut args, "-c:a");
            push_argument(&mut args, "copy");
        },
        OutputFormat::Mp3 => {
            push_argument(&mut args, "-vn");
            push_argument(&mut args, "-c:a");
            push_argument(&mut args, "libmp3lame");
            push_argument(&mut args, "-q:a");
            push_argument(&mut args, "2");
        },
    }
    push_argument(&mut args, "-y");
    push_argument(&mut args, output);
    assert(texts(args@) =~= format_arguments_of(format, list_path@, output@));
    args
}

} // verus!
