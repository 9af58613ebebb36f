//! HLS playlists: what the playlist parser hands over, and how it becomes
//! the manifest model.

use vstd::prelude::*;
use crate::common::{SegmentDuration, StreamSegment, StreamingError};
use crate::text::{starts_with, starts_with_text, to_chars};

verus! {

/// One `EXT-X-STREAM-INF` entry as the playlist states it.
#[derive(Debug)]
pub struct RawVariant {
    pub uri: String,
    pub bandwidth: u64,
    /// `(width, height)`.
    pub resolution: Option<(u64, u64)>,
    pub codecs: Option<String>,
}

/// An `EXT-X-BYTERANGE` value: `length[@offset]`.
#[derive(Debug, Clone, Copy)]
pub struct RawByteRange {
    pub length: u64,
    pub offset: Option<u64>,
}

/// One media entry as the playlist states it.
#[derive(Debug)]
pub struct RawSegment {
    pub uri: String,
    /// `EXTINF` seconds as an IEEE 754 binary32 bit pattern.
    pub duration_bits: u32,
    pub title: Option<String>,
    pub byte_range: Option<RawByteRange>,
}

/// A media playlist as it states itself.
#[derive(Debug)]
pub struct RawMedia {
    pub segments: Vec<RawSegment>,
    pub target_duration: u64,
    pub version: Option<usize>,
    pub media_sequence: u64,
    pub end_list: bool,
}

/// One rendition of a master playlist.
#[derive(Debug)]
pub struct HlsVariant {
    /// Absolute URL of the rendition's media playlist.
    pub url: String,
    /// `(width, height)`.
    pub resolution: Option<(u64, u64)>,
    /// bit/s.
    pub bandwidth: u64,
    pub codec: Option<String>,
}

impl HlsVariant {
    /// A field-by-field copy.
    pub fn duplicate(&self) -> (r: HlsVariant)
        ensures
            r == *self,
    {
        HlsVariant {
            url: self.url.clone(),
            resolution: self.resolution,
            bandwidth: self.bandwidth,
            codec: match &self.codec {
                Some(c) => Some(c.clone()),
                None => None,
            },
        }
    }
}

/// A master playlist: pointers to media playlists.
#[derive(Debug)]
pub struct HlsMaster {
    pub url: String,
    pub variants: Vec<HlsVariant>,
}

/// A media playlist: the segments of one rendition.
#[derive(Debug)]
pub struct HlsMedia {
    pub url: String,
    pub segments: Vec<StreamSegment>,
    /// Seconds.
    pub target_duration: u64,
    pub version: Option<usize>,
    /// Sequence number of the first entry of the playlist.
    pub sequence_no: u64,
    /// The playlist has no end marker.
    pub is_live: bool,
}

/// A parsed HLS playlist.
#[derive(Debug)]
pub enum HlsManifest {
    Master(HlsMaster),
    Media(HlsMedia),
}

/// Whether `m3u8_rs::is_master_playlist` finds a master-playlist tag before
/// any media-playlist tag in `text`.
pub uninterp spec fn master_tag_found(text: Seq<char>) -> bool;

/// The variants that `m3u8_rs::parse_master_playlist_res` finds in `text`,
/// or `None` where it rejects the text.
pub uninterp spec fn master_playlist_of(text: Seq<char>) -> Option<Seq<RawVariant>>;

/// What `m3u8_rs::parse_media_playlist_res` finds in `text`, or `None` where
/// it rejects the text.
pub uninterp spec fn media_playlist_of(text: Seq<char>) -> Option<RawMedia>;

/// Whether `url::Url::parse` accepts `url` as an absolute URL.
pub uninterp spec fn url_is_valid(url: Seq<char>) -> bool;

/// The serialization of what `url::Url::join` makes of `reference` against
/// the absolute URL `base`; `None` where `base` does not parse or the join
/// fails.
pub uninterp spec fn url_join(base: Seq<char>, reference: Seq<char>) -> Option<Seq<char>>;

/// Calls `m3u8_rs::is_master_playlist`, which scans the lines after the
/// `#EXTM3U` header for the first tag that belongs to one of the two kinds
/// of playlist.
#[verifier::external_body]
fn find_master_tag(text: &str) -> (r: bool)
    ensures
        r == master_tag_found(text@),
{
    m3u8_rs::is_master_playlist(text.as_bytes())
}

/// Calls `m3u8_rs::parse_master_playlist_res` and hands over, of each
/// variant stream it found, the URI, bandwidth, resolution and codecs.
#[verifier::external_body]
fn read_master_playlist(text: &str) -> (r: Option<Vec<RawVariant>>)
    ensures
        r is Some <==> master_playlist_of(text@) is Some,
        r matches Some(v) ==> v@ == master_playlist_of(text@)->0,
{
    let m = m3u8_rs::parse_master_playlist_res(text.as_bytes()).ok()?;
    let resolution = |v: &m3u8_rs::VariantStream| v.resolution.map(|r| (r.width, r.height));
    let variant = |v: m3u8_rs::VariantStream| RawVariant {
        resolution: resolution(&v), uri: v.uri, bandwidth: v.bandwidth, codecs: v.codecs };
    Some(m.variants.into_iter().map(variant).collect())
}

/// Calls `m3u8_rs::parse_media_playlist_res` and hands over the playlist's
/// target duration, version, media sequence and end marker, and of each
/// segment the URI, duration, title and byte range.
#[verifier::external_body]
fn read_media_playlist(text: &str) -> (r: Option<RawMedia>)
    ensures
        r == media_playlist_of(text@),
{
    let m = m3u8_rs::parse_media_playlist_res(text.as_bytes()).ok()?;
    let range = |b: m3u8_rs::ByteRange| RawByteRange { length: b.length, offset: b.offset };
    let segment = |s: m3u8_rs::MediaSegment| RawSegment { uri: s.uri, title: s.title,
        duration_bits: s.duration.to_bits(), byte_range: s.byte_range.map(range) };
    let segments = m.segments.into_iter().map(segment).collect();
    Some(RawMedia { segments, target_duration: m.target_duration, version: m.version,
        media_sequence: m.media_sequence, end_list: m.end_list })
}

/// Calls `url::Url::parse` and says whether it accepted the text.
#[verifier::external_body]
fn check_url(url: &str) -> (r: bool)
    ensures
        r == url_is_valid(url@),
{
    url::Url::parse(url).is_ok()
}

/// Parses `base` with `url::Url::parse`, resolves `reference` against it
/// with `url::Url::join` and returns the serialization of the result.
#[verifier::external_body]
fn join_url(base: &str, reference: &str) -> (r: Option<String>)
    ensures
        r is Some <==> url_join(base@, reference@) is Some,
        r matches Some(s) ==> s@ == url_join(base@, reference@)->0,
{
    match url::Url::parse(base) {
        Ok(b) => match b.join(reference) {
            Ok(u) => Some(String::from(u)),
            Err(_) => None,
        },
        Err(_) => None,
    }
}

/// Where a URI of a playlist points: itself where it begins with `http`,
/// else its join with the playlist's own URL.
pub open spec fn resolved_uri(base: Seq<char>, uri: Seq<char>) -> Option<Seq<char>> {
    if starts_with_text(uri, "http"@) {
        Some(uri)
    } else {
        url_join(base, uri)
    }
}

/// Resolves a URI of the playlist at `base`.
pub fn resolve_uri(base: &str, uri: &str) -> (r: Option<String>)
    ensures
        r is Some <==> resolved_uri(base@, uri@) is Some,
        r matches Some(s) ==> s@ == resolved_uri(base@, uri@)->0,
{
    let chars = to_chars(uri);
    if starts_with(&chars, "http") {
        Some(uri.to_owned())
    } else {
        join_url(base, uri)
    }
}

/// `v` is the variant that the entry `raw` of the playlist at `base` stands
/// for.
pub open spec fn variant_of(base: Seq<char>, raw: RawVariant, v: HlsVariant) -> bool {
    &&& resolved_uri(base, raw.uri@) == Some(v.url@)
    &&& v.resolution == raw.resolution
    &&& v.bandwidth == raw.bandwidth
    &&& v.codec == raw.codecs
}

/// Every URI among the first `n` entries resolves.
pub open spec fn variants_resolve(base: Seq<char>, raw: Seq<RawVariant>, n: int) -> bool {
    forall|i: int| 0 <= i < n ==> resolved_uri(base, (#[trigger] raw[i]).uri@) is Some
}

/// `r` is what the master playlist at `url` with the entries `raw` yields:
/// one variant per entry, in source order, or a parse error where a URI
/// does not resolve.
pub open spec fn master_outcome(
    url: Seq<char>,
    raw: Seq<RawVariant>,
    r: Result<HlsManifest, StreamingError>,
) -> bool {
    if variants_resolve(url, raw, raw.len() as int) {
        &&& r matches Ok(HlsManifest::Master(m))
        &&& m.url@ == url
        &&& m.variants.len() == raw.len()
        &&& forall|i: int| 0 <= i < raw.len() ==> variant_of(url, raw[i], #[trigger] m.variants[i])
    } else {
        r matches Err(StreamingError::ManifestParseError(_))
    }
}

/// Builds the manifest of the master playlist at `url` from its entries.
pub fn manifest_from_master(url: &str, raw: Vec<RawVariant>) -> (r: Result<
    HlsManifest,
    StreamingError,
>)
    ensures
        master_outcome(url@, raw@, r),
{
    let mut variants: Vec<HlsVariant> = Vec::new();
    let mut i: usize = 0;
    while i < raw.len()
        invariant
            i <= raw.len(),
            variants.len() == i,
            variants_resolve(url@, raw@, i as int),
            forall|k: int| 0 <= k < i ==> variant_of(url@, raw@[k], #[trigger] variants@[k]),
        decreases raw.len() - i,
    {
        let entry = &raw[i];
        match resolve_uri(url, entry.uri.as_str()) {
            Some(resolved) => {
                variants.push(
                    HlsVariant {
                        url: resolved,
                        resolution: entry.resolution,
                        bandwidth: entry.bandwidth,
                        codec: match &entry.codecs {
                            Some(c) => Some(c.clone()),
                            None => None,
                        },
                    },
                );
            },
            None => {
                return Err(
                    StreamingError::ManifestParseError(
                        "a variant URI could not be resolved".to_owned(),
                    ),
                );
            },
        }
        i = i + 1;
    }
    Ok(HlsManifest::Master(HlsMaster { url: url.to_owned(), variants }))
}

/// Where the byte range of an entry ends that follows an entry whose range
/// ended at `previous_end`: `start + length`, with `start` the stated
/// offset, else the end of the range before it, else zero.
pub open spec fn range_of(range: RawByteRange, previous_end: Option<u64>) -> (int, int) {
    let start: int = match range.offset {
        Some(o) => o as int,
        None => match previous_end {
            Some(e) => e as int,
            None => 0,
        },
    };
    (start, start + range.length)
}

/// The byte range that entry `raw` asks for, if it asks for one that can be
/// numbered.
pub open spec fn byte_range_of(raw: RawSegment, previous_end: Option<u64>) -> Option<(u64, u64)> {
    match raw.byte_range {
        Some(range) => {
            let (start, end) = range_of(range, previous_end);
            if end <= u64::MAX {
                Some((start as u64, end as u64))
            } else {
                None
            }
        },
        None => None,
    }
}

/// The entry at position `index` of a playlist that starts at
/// `first_sequence` is left out: its sequence number or the end of its byte
/// range does not fit 64 bits.
pub open spec fn entry_skipped(
    raw: RawSegment,
    index: int,
    first_sequence: u64,
    previous_end: Option<u64>,
) -> bool {
    first_sequence + index > u64::MAX || (raw.byte_range is Some && byte_range_of(
        raw,
        previous_end,
    ) is None)
}

/// The end of the byte range of the last of `raw`, for the entry that
/// follows.
pub open spec fn range_end_after(raw: Seq<RawSegment>, first_sequence: u64) -> Option<u64>
    decreases raw.len(),
{
    if raw.len() == 0 {
        None
    } else {
        let before = range_end_after(raw.drop_last(), first_sequence);
        if entry_skipped(raw.last(), raw.len() - 1, first_sequence, before) {
            None
        } else {
            match byte_range_of(raw.last(), before) {
                Some((_, end)) => Some(end),
                None => None,
            }
        }
    }
}

/// `s` is the segment that the entry `raw` at position `index` stands for.
pub open spec fn segment_of(
    base: Seq<char>,
    raw: RawSegment,
    index: int,
    first_sequence: u64,
    previous_end: Option<u64>,
    s: StreamSegment,
) -> bool {
    &&& resolved_uri(base, raw.uri@) == Some(s.url@)
    &&& s.duration == SegmentDuration::SecondsBits(raw.duration_bits)
    &&& s.sequence == first_sequence + index
    &&& s.byte_range == byte_range_of(raw, previous_end)
    &&& s.title == raw.title
    &&& !s.is_initialization
}

/// Positions, in order, of the entries among the first `n` of `raw` that
/// are kept.
pub open spec fn kept_entries(raw: Seq<RawSegment>, first_sequence: u64, n: int) -> Seq<int>
    decreases n,
{
    if n <= 0 {
        Seq::empty()
    } else {
        let before = kept_entries(raw, first_sequence, n - 1);
        if entry_skipped(
            raw[n - 1],
            n - 1,
            first_sequence,
            range_end_after(raw.take(n - 1), first_sequence),
        ) {
            before
        } else {
            before.push(n - 1)
        }
    }
}

/// The URI of every kept entry among the first `n` resolves.
pub open spec fn segments_resolve(base: Seq<char>, raw: Seq<RawSegment>, first: u64, n: int) -> bool {
    forall|k: int|
        0 <= k < kept_entries(raw, first, n).len() ==> resolved_uri(
            base,
            raw[#[trigger] kept_entries(raw, first, n)[k]].uri@,
        ) is Some
}

/// `segments` are what the first `n` entries of `raw` yield.
pub open spec fn segments_of(
    base: Seq<char>,
    raw: Seq<RawSegment>,
    first: u64,
    n: int,
    segments: Seq<StreamSegment>,
) -> bool {
    let kept = kept_entries(raw, first, n);
    &&& segments.len() == kept.len()
    &&& forall|k: int|
        0 <= k < kept.len() ==> segment_of(
            base,
            raw[kept[k]],
            kept[k],
            first,
            range_end_after(raw.take(kept[k]), first),
            #[trigger] segments[k],
        )
}

/// `r` is what the media playlist `raw` at `url` yields: one segment per
/// kept entry, numbered by position from the playlist's media sequence, and
/// live unless the playlist is ended; or a parse error where the URL is not
/// valid or a URI does not resolve.
pub open spec fn media_outcome(
    url: Seq<char>,
    raw: RawMedia,
    r: Result<HlsManifest, StreamingError>,
) -> bool {
    if url_is_valid(url) && segments_resolve(
        url,
        raw.segments@,
        raw.media_sequence,
        raw.segments.len() as int,
    ) {
        &&& r matches Ok(HlsManifest::Media(m))
        &&& m.url@ == url
        &&& m.target_duration == raw.target_duration
        &&& m.version == raw.version
        &&& m.sequence_no == raw.media_sequence
        &&& m.is_live == !raw.end_list
        &&& segments_of(
            url,
            raw.segments@,
            raw.media_sequence,
            raw.segments.len() as int,
            m.segments@,
        )
    } else {
        r matches Err(StreamingError::ManifestParseError(_))
    }
}

/// The kept positions are increasing positions below `n`.
pub proof fn lemma_kept_entries(raw: Seq<RawSegment>, first: u64, n: int)
    requires
        0 <= n <= raw.len(),
    ensures
        forall|k: int|
            0 <= k < kept_entries(raw, first, n).len() ==> 0 <= #[trigger] kept_entries(
                raw,
                first,
                n,
            )[k] < n,
        forall|j: int, k: int|
            0 <= j < k < kept_entries(raw, first, n).len() ==> #[trigger] kept_entries(
                raw,
                first,
                n,
            )[j] < #[trigger] kept_entries(raw, first, n)[k],
    decreases n,
{
    if n > 0 {
        lemma_kept_entries(raw, first, n - 1);
        let before = kept_entries(raw, first, n - 1);
        assert(kept_entries(raw, first, n) == before || kept_entries(raw, first, n) == before.push(
            n - 1,
        ));
    }
}

/// Segments built from a playlist carry strictly increasing sequence
/// numbers.
pub proof fn lemma_sequences_increase(
    base: Seq<char>,
    raw: Seq<RawSegment>,
    first: u64,
    segments: Seq<StreamSegment>,
)
    requires
        segments_of(base, raw, first, raw.len() as int, segments),
    ensures
        crate::common::sequences_increase(segments),
{
    lemma_kept_entries(raw, first, raw.len() as int);
}

/// Builds the manifest of the media playlist at `url` from what the
/// playlist states.
pub fn manifest_from_media(url: &str, raw: RawMedia) -> (r: Result<HlsManifest, StreamingError>)
    ensures
        media_outcome(url@, raw, r),
{
    if !check_url(url) {
        return Err(
            StreamingError::ManifestParseError("the playlist URL is not valid".to_owned()),
        );
    }
    let first = raw.media_sequence;
    let n = raw.segments.len();
    let mut segments: Vec<StreamSegment> = Vec::new();
    let mut previous_end: Option<u64> = None;
    let mut i: usize = 0;
    while i < n
        invariant
            i <= n,
            n == raw.segments.len(),
            first == raw.media_sequence,
            previous_end == range_end_after(raw.segments@.take(i as int), first),
            segments_resolve(url@, raw.segments@, first, i as int),
            segments_of(url@, raw.segments@, first, i as int, segments@),
        decreases n - i,
    {
        let entry = &raw.segments[i];
        proof {
            assert(raw.segments@.take(i + 1).drop_last() == raw.segments@.take(i as int));
        }
        let range: Option<Option<(u64, u64)>> = match entry.byte_range {
            None => Some(None),
            Some(b) => {
                let start: u64 = match b.offset {
                    Some(o) => o,
                    None => match previous_end {
                        Some(e) => e,
                        None => 0,
                    },
                };
                if b.length <= u64::MAX - start {
                    Some(Some((start, start + b.length)))
                } else {
                    None
                }
            },
        };
        let numbered = (i as u64) <= u64::MAX - first;
        if numbered && range.is_some() {
            let byte_range = range.unwrap();
            match resolve_uri(url, entry.uri.as_str()) {
                Some(resolved) => {
                    segments.push(
                        StreamSegment {
                            url: resolved,
                            duration: SegmentDuration::SecondsBits(entry.duration_bits),
                            sequence: first + (i as u64),
                            byte_range,
                            title: match &entry.title {
                                Some(t) => Some(t.clone()),
                                None => None,
                            },
                            is_initialization: false,
                        },
                    );
                },
                None => {
                    proof {
                        let last = kept_entries(raw.segments@, first, i + 1).len() - 1;
                        lemma_kept_prefix(raw.segments@, first, i + 1, n as int);
                        assert(kept_entries(raw.segments@, first, n as int)[last] == i);
                    }
                    return Err(
                        StreamingError::ManifestParseError(
                            "a segment URI could not be resolved".to_owned(),
                        ),
                    );
                },
            }
            previous_end = match byte_range {
                Some((_, end)) => Some(end),
                None => None,
            };
        } else {
            previous_end = None;
        }
        i = i + 1;
    }
    Ok(
        HlsManifest::Media(
            HlsMedia {
                url: url.to_owned(),
                segments,
                target_duration: raw.target_duration,
                version: raw.version,
                sequence_no: raw.media_sequence,
                is_live: !raw.end_list,
            },
        ),
    )
}

/// What is kept among the first `m` entries stays kept, at the same place,
/// among the first `n >= m`.
proof fn lemma_kept_prefix(raw: Seq<RawSegment>, first: u64, m: int, n: int)
    requires
        0 <= m <= n <= raw.len(),
    ensures
        kept_entries(raw, first, m).len() <= kept_entries(raw, first, n).len(),
        forall|k: int|
            0 <= k < kept_entries(raw, first, m).len() ==> #[trigger] kept_entries(raw, first, n)[k]
                == kept_entries(raw, first, m)[k],
    decreases n - m,
{
    if m < n {
        lemma_kept_prefix(raw, first, m, n - 1);
    }
}

/// `r` is what the playlist text `content`, fetched from `url`, yields. The
/// text is a master playlist where a master tag comes first, else a media
/// playlist; text that the parser rejects is a parse error.
pub open spec fn playlist_outcome(
    content: Seq<char>,
    url: Seq<char>,
    r: Result<HlsManifest, StreamingError>,
) -> bool {
    if master_tag_found(content) {
        match master_playlist_of(content) {
            Some(raw) => master_outcome(url, raw, r),
            None => r matches Err(StreamingError::ManifestParseError(_)),
        }
    } else {
        match media_playlist_of(content) {
            Some(raw) => media_outcome(url, raw, r),
            None => r matches Err(StreamingError::ManifestParseError(_)),
        }
    }
}

/// Parses the playlist text `content` that was fetched from `url`.
pub fn parse_manifest(content: &str, url: &str) -> (r: Result<HlsManifest, StreamingError>)
    ensures
        playlist_outcome(content@, url@, r),
{
    if find_master_tag(content) {
        match read_master_playlist(content) {
            Some(raw) => manifest_from_master(url, raw),
            None => Err(
                StreamingError::ManifestParseError("the playlist could not be parsed".to_owned()),
            ),
        }
    } else {
        match read_media_playlist(content) {
            Some(raw) => manifest_from_media(url, raw),
            None => Err(
                StreamingError::ManifestParseError("the playlist could not be parsed".to_owned()),
            ),
        }
    }
}

} // verus!
