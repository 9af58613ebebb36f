//! Small formatting helpers.

use vstd::prelude::*;
use std::path::{Path, PathBuf};
use crate::text::lowercase;
use crate::text::lowercase_text;
use crate::text::{
    decimal, decimal_padded, decimal_text, from_chars, push_all, push_str, zero_padded,
};

verus! {

/// A duration of `seconds` in words: seconds below a minute, minutes and
/// seconds below an hour, else hours, minutes and seconds.
pub open spec fn duration_text(seconds: nat) -> Seq<char> {
    if seconds < 60 {
        decimal_text(seconds) + "秒"@
    } else if seconds < 3600 {
        decimal_text(seconds / 60) + "分"@ + decimal_text(seconds % 60) + "秒"@
    } else {
        decimal_text(seconds / 3600) + "時間"@ + decimal_text((seconds % 3600) / 60) + "分"@
            + decimal_text(seconds % 60) + "秒"@
    }
}

/// Writes a duration in words.
pub fn format_duration(seconds: u64) -> (r: String)
    ensures
        r@ == duration_text(seconds as nat),
{
    let mut out: Vec<char> = Vec::new();
    if seconds < 60 {
        push_all(&mut out, &decimal(seconds));
        push_str(&mut out, "秒");
    } else if seconds < 3600 {
        push_all(&mut out, &decimal(seconds / 60));
        push_str(&mut out, "分");
        push_all(&mut out, &decimal(seconds % 60));
        push_str(&mut out, "秒");
    } else {
        push_all(&mut out, &decimal(seconds / 3600));
        push_str(&mut out, "時間");
        push_all(&mut out, &decimal((seconds % 3600) / 60));
        push_str(&mut out, "分");
        push_all(&mut out, &decimal(seconds % 60));
        push_str(&mut out, "秒");
    }
    from_chars(&out)
}

/// The quotient `num / den`, rounded to the nearest whole number, a tie
/// going to the even one.
pub open spec fn round_half_even(num: nat, den: nat) -> nat
    recommends
        den > 0,
{
    let q = num / den;
    let r = num % den;
    if 2 * r > den || (2 * r == den && q % 2 == 1) {
        q + 1
    } else {
        q
    }
}

/// The step between neighbouring double-precision numbers around `n`: one
/// below 2^53, and doubling with every further bit.
pub open spec fn double_step(n: nat) -> nat
    decreases n,
{
    if n < 0x20_0000_0000_0000 {
        1
    } else {
        2 * double_step(n / 2)
    }
}

/// The double-precision number nearest to `n`, a tie going to the even
/// mantissa. This is what a 64-bit size becomes when it is converted for
/// display.
pub open spec fn nearest_double(n: nat) -> nat {
    round_half_even(n, double_step(n)) * double_step(n)
}

/// `size` in units of `unit` bytes with two decimals, rounded half to
/// even, followed by a space and the unit's name.
pub open spec fn scaled_text(size: nat, unit: nat, name: Seq<char>) -> Seq<char> {
    let hundredths = round_half_even(nearest_double(size) * 100, unit);
    decimal_text(hundredths / 100) + "."@ + zero_padded(decimal_text(hundredths % 100), 2) + " "@
        + name
}

/// A file size for people to read: bytes below 1024, else the size in the
/// largest binary unit up to TB in which it is at least one, with two
/// decimals.
pub open spec fn size_text(size: nat) -> Seq<char> {
    if size < 0x400 {
        decimal_text(size) + " B"@
    } else if size < 0x10_0000 {
        scaled_text(size, 0x400, "KB"@)
    } else if size < 0x4000_0000 {
        scaled_text(size, 0x10_0000, "MB"@)
    } else if size < 0x100_0000_0000 {
        scaled_text(size, 0x4000_0000, "GB"@)
    } else {
        scaled_text(size, 0x100_0000_0000, "TB"@)
    }
}

/// `num / den` rounded half to even.
fn rounded_quotient(num: u128, den: u128) -> (q: u128)
    requires
        den > 0,
        den <= 0x100_0000_0000,
        num <= 0xffff_ffff_ffff_ffff_ffff_ffff,
    ensures
        q == round_half_even(num as nat, den as nat),
        q <= num / den + 1,
{
    let q = num / den;
    let r = num % den;
    if 2 * r > den || (2 * r == den && q % 2 == 1) {
        q + 1
    } else {
        q
    }
}

/// The step between neighbouring double-precision numbers around `n`.
fn step_of(n: u64) -> (step: u64)
    ensures
        step == double_step(n as nat),
        1 <= step < 0x1000,
{
    let mut rest: u64 = n;
    let mut step: u64 = 1;
    while rest >= 0x20_0000_0000_0000
        invariant
            1 <= step < 0x1000,
            rest * step <= n,
            double_step(n as nat) == step * double_step(rest as nat),
        decreases rest,
    {
        assert(step < 0x800) by (nonlinear_arith)
            requires
                rest * step <= n,
                rest >= 0x20_0000_0000_0000,
                n <= 0xffff_ffff_ffff_ffff,
                step >= 1,
        ;
        assert((rest / 2) * (step * 2) <= rest * step) by (nonlinear_arith)
            requires
                rest >= 0,
                step >= 1,
        ;
        assert(step * (2 * double_step((rest / 2) as nat)) == (step * 2) * double_step(
            (rest / 2) as nat,
        )) by (nonlinear_arith);
        rest = rest / 2;
        step = step * 2;
    }
    let ghost last = double_step(rest as nat);
    assert(step * last == step) by (nonlinear_arith)
        requires
            last == 1,
    ;
    step
}

/// Writes `size` in units of `unit` bytes.
fn scaled(size: u64, unit: u64, name: &str) -> (out: Vec<char>)
    requires
        unit == 0x400 || unit == 0x10_0000 || unit == 0x4000_0000 || unit == 0x100_0000_0000,
        size >= unit,
    ensures
        out@ == scaled_text(size as nat, unit as nat, name@),
{
    let step = step_of(size);
    let mantissa = rounded_quotient(size as u128, step as u128);
    assert(mantissa * step <= size + step) by (nonlinear_arith)
        requires
            mantissa <= (size as int) / (step as int) + 1,
            step >= 1,
            size >= 0,
    ;
    let nearest: u128 = mantissa * (step as u128);
    let hundredths = rounded_quotient(nearest * 100, unit as u128);
    let mut out = decimal((hundredths / 100) as u64);
    push_str(&mut out, ".");
    push_all(&mut out, &decimal_padded((hundredths % 100) as u64, 2));
    push_str(&mut out, " ");
    push_str(&mut out, name);
    out
}

/// Writes a file size for people to read.
pub fn format_file_size(size: u64) -> (r: String)
    ensures
        r@ == size_text(size as nat),
{
    let out = if size < 0x400 {
        let mut out = decimal(size);
        push_str(&mut out, " B");
        out
    } else if size < 0x10_0000 {
        scaled(size, 0x400, "KB")
    } else if size < 0x4000_0000 {
        scaled(size, 0x10_0000, "MB")
    } else if size < 0x100_0000_0000 {
        scaled(size, 0x4000_0000, "GB")
    } else {
        scaled(size, 0x100_0000_0000, "TB")
    };
    from_chars(&out)
}

/// `std::path::Path`, carried through without looking inside.
#[verifier::external_type_specification]
#[verifier::external_body]
pub struct ExPath(std::path::Path);

/// The last path segment of `url` as `url::Url::parse` and
/// `url::Url::path_segments` find it; none where the text is no URL or the
/// URL has no path segments.
pub uninterp spec fn url_last_segment(url: Seq<char>) -> Option<Seq<char>>;

/// Parses `url` with `url::Url::parse` and returns the last of its
/// `path_segments`.
#[verifier::external_body]
fn last_path_segment(url: &str) -> (r: Option<String>)
    ensures
        r is Some <==> url_last_segment(url@) is Some,
        r matches Some(s) ==> s@ == url_last_segment(url@)->0,
{
    let parsed = url::Url::parse(url).ok()?;
    let last = parsed.path_segments()?.last()?;
    Some(last.to_string())
}

/// Calls `Path::extension`: the extension of the file name, where the
/// platform's path syntax finds one that is valid Unicode.
#[verifier::external_body]
fn path_extension(path: &Path) -> Option<String> {
    path.extension().and_then(|e| e.to_str()).map(|e| e.to_string())
}

/// Calls `Path::file_stem`: the file name without its extension, where the
/// platform's path syntax finds one that is valid Unicode.
#[verifier::external_body]
fn path_stem(path: &Path) -> Option<String> {
    path.file_stem().and_then(|e| e.to_str()).map(|e| e.to_string())
}

/// Calls `Path::file_name`: the last component of the path, with invalid
/// Unicode replaced; empty where the platform's path syntax finds none.
#[verifier::external_body]
fn path_file_name(path: &Path) -> String {
    path.file_name().unwrap_or_default().to_string_lossy().into_owned()
}

/// Calls `Path::join`: `dir` extended by `name`.
#[verifier::external_body]
fn path_join(dir: &Path, name: &str) -> PathBuf {
    dir.join(name)
}

/// Calls `Path::with_file_name`: `path` with its last component replaced
/// by `name`.
#[verifier::external_body]
fn path_with_file_name(path: &Path, name: &str) -> PathBuf {
    path.with_file_name(name)
}

/// The file name that the last segment of a URL gives: the segment, unless
/// it is empty.
pub open spec fn file_name_of(segment: Option<Seq<char>>) -> Option<Seq<char>> {
    match segment {
        Some(s) => if s.len() > 0 {
            Some(s)
        } else {
            None
        },
        None => None,
    }
}

/// The file name that the last path segment of a URL gives.
pub fn file_name_from_segment(segment: Option<String>) -> (r: Option<String>)
    ensures
        r is Some <==> file_name_of(
            match segment {
                Some(s) => Some(s@),
                None => None,
            },
        ) is Some,
        r matches Some(name) ==> segment == Some(name),
{
    match segment {
        Some(s) => {
            if s.as_str().unicode_len() > 0 {
                Some(s)
            } else {
                None
            }
        },
        None => None,
    }
}

/// The file name at the end of a URL's path, if the text is a URL whose
/// path ends in one.
pub fn extract_filename_from_url(url: &str) -> (r: Option<String>)
    ensures
        r is Some <==> file_name_of(url_last_segment(url@)) is Some,
        r matches Some(name) ==> Some(name@) == file_name_of(url_last_segment(url@)),
{
    file_name_from_segment(last_path_segment(url))
}

/// An extension in lower case.
pub fn lowercase_extension(extension: Option<String>) -> (r: Option<String>)
    ensures
        extension is Some <==> r is Some,
        r matches Some(e) ==> e@ == lowercase_text(extension->0@),
{
    match extension {
        Some(e) => Some(lowercase(e.as_str())),
        None => None,
    }
}

/// The extension of the file at `path`, in lower case. Where the file
/// name ends and where its extension starts is for the platform's path
/// syntax to say.
pub fn get_file_extension(path: &Path) -> (r: Option<String>)
    ensures
        r matches Some(e) ==> exists|raw: Seq<char>| e@ == lowercase_text(raw),
{
    lowercase_extension(path_extension(path))
}

/// The name of the file at `path` without its extension, as the
/// platform's path syntax finds it.
pub fn get_file_stem(path: &Path) -> Option<String> {
    path_stem(path)
}

/// The name of the partial file that belongs to the file named `name`.
pub fn partial_name(name: &str) -> (r: String)
    ensures
        r@ == name@ + ".part"@,
{
    let mut out: Vec<char> = Vec::new();
    push_str(&mut out, name);
    push_str(&mut out, ".part");
    from_chars(&out)
}

/// The path of the partial file that belongs to the file at `final_path`:
/// its file name followed by `.part`, inside `temp_dir` where one is
/// given, else beside the file itself.
pub fn generate_temp_path(final_path: &Path, temp_dir: Option<&Path>) -> PathBuf {
    let name = partial_name(path_file_name(final_path).as_str());
    match temp_dir {
        Some(dir) => path_join(dir, name.as_str()),
        None => path_with_file_name(final_path, name.as_str()),
    }
}

} // verus!
