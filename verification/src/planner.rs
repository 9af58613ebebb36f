//! Segment planning: the ordered list of segments that a chosen DASH
//! representation consists of.

use vstd::prelude::*;
use crate::common::{product, SegmentDuration, StreamSegment, StreamingError};
use crate::dash::{DashRepresentation, SegmentSource, SegmentTemplate, TimelineEntry, template_usable};
use crate::text::{
    decimal, decimal_text, from_chars, last_index_of, push_all, replace_all, replace_text, rfind,
    starts_with, starts_with_text, to_chars,
};

verus! {

/// The base that relative segment URLs are joined to: the manifest URL up
/// to and with its last `/`; empty where it has none.
pub open spec fn base_of(url: Seq<char>) -> Seq<char> {
    match last_index_of(url, '/') {
        Some(i) => url.take(i + 1),
        None => Seq::empty(),
    }
}

/// The base URL of the manifest at `url`.
pub fn base_url(url: &str) -> (r: String)
    ensures
        r@ == base_of(url@),
{
    let chars = to_chars(url);
    let mut out: Vec<char> = Vec::new();
    match rfind(&chars, '/') {
        Some(last) => {
            proof {
                crate::text::lemma_last_index_of(chars@, '/');
            }
            let mut i: usize = 0;
            while i <= last
                invariant
                    last < chars.len(),
                    i <= last + 1,
                    out@ == chars@.take(i as int),
                decreases last + 1 - i,
            {
                out.push(chars[i]);
                i = i + 1;
            }
        },
        None => {},
    }
    from_chars(&out)
}

/// Where a segment reference points: itself where it begins with `http`,
/// else the base followed by it.
pub open spec fn joined(base: Seq<char>, reference: Seq<char>) -> Seq<char> {
    if starts_with_text(reference, "http"@) {
        reference
    } else {
        base + reference
    }
}

/// A URL pattern with the representation's id and a segment number filled
/// in.
pub open spec fn expanded(pattern: Seq<char>, id: Seq<char>, number: nat) -> Seq<char> {
    replace_text(replace_text(pattern, "$RepresentationID$"@, id), "$Number$"@, decimal_text(number))
}

/// The URL of the initialization segment: the pattern itself where it is
/// absolute, else the base followed by the pattern with the
/// representation's id filled in.
pub open spec fn initialization_url(base: Seq<char>, pattern: Seq<char>, id: Seq<char>) -> Seq<char> {
    if starts_with_text(pattern, "http"@) {
        pattern
    } else {
        base + replace_text(pattern, "$RepresentationID$"@, id)
    }
}

/// How many segments a timeline entry stands for: one more than its repeat
/// count, and none where that is not positive.
pub open spec fn entry_count(e: TimelineEntry) -> nat {
    match e.repeat {
        Some(r) => if r >= 0 {
            (r + 1) as nat
        } else {
            0
        },
        None => 1,
    }
}

/// The durations of the segments of a timeline, in order.
pub open spec fn timeline_durations(entries: Seq<TimelineEntry>) -> Seq<u64>
    decreases entries.len(),
{
    if entries.len() == 0 {
        Seq::empty()
    } else {
        timeline_durations(entries.drop_last()) + Seq::new(
            entry_count(entries.last()),
            |i: int| entries.last().duration,
        )
    }
}

/// How many segments of `duration` units cover `total_ms` milliseconds at
/// `timescale` units per second: the quotient of the two lengths, rounded
/// up.
pub open spec fn fixed_count(total_ms: u64, timescale: u32, duration: u32) -> nat
    recommends
        duration > 0,
{
    ((total_ms * timescale + duration * 1000 - 1) / (duration * 1000)) as nat
}

/// The timescale of a template; one unit per second where it states none.
pub open spec fn timescale_of(t: SegmentTemplate) -> u64 {
    match t.timescale {
        Some(s) => s as u64,
        None => 1,
    }
}

/// The number of the first media segment.
pub open spec fn first_number(t: SegmentTemplate) -> nat {
    match t.start_number {
        Some(n) => n as nat,
        None => 1,
    }
}

/// The durations of the media segments of a usable template, in timescale
/// units: those of its timeline, else as many fixed ones as cover the
/// presentation.
pub open spec fn media_durations(t: SegmentTemplate, total_ms: Option<u64>) -> Seq<u64> {
    if t.timeline is Some {
        timeline_durations(t.timeline->0@)
    } else {
        Seq::new(
            fixed_count(total_ms->0, t.timescale->0, t.duration->0),
            |i: int| t.duration->0 as u64,
        )
    }
}

/// `s` is a segment without title and byte range at `url`, with the given
/// place and playing time.
pub open spec fn segment_is(
    s: StreamSegment,
    url: Seq<char>,
    sequence: int,
    duration: SegmentDuration,
    initialization: bool,
) -> bool {
    &&& s.url@ == url
    &&& s.sequence == sequence
    &&& s.duration == duration
    &&& s.byte_range is None
    &&& s.title is None
    &&& s.is_initialization == initialization
}

/// The segments of `rep` can be numbered within 64 bits.
pub open spec fn plannable(rep: DashRepresentation, total_ms: Option<u64>) -> bool {
    match rep.source {
        SegmentSource::List(_) => true,
        SegmentSource::Template(t) => template_usable(t, total_ms) && first_number(t)
            + media_durations(t, total_ms).len() < u64::MAX,
    }
}

/// `segments` holds, from position `shift` on, the media segments with the
/// given durations of a template.
pub open spec fn media_planned(
    base: Seq<char>,
    id: Seq<char>,
    t: SegmentTemplate,
    durations: Seq<u64>,
    shift: int,
    segments: Seq<StreamSegment>,
) -> bool {
    &&& segments.len() == durations.len() + shift
    &&& forall|i: int|
        0 <= i < durations.len() ==> segment_is(
            #[trigger] segments[i + shift],
            joined(base, expanded(t.media->0@, id, first_number(t) + i as nat)),
            i + shift,
            SegmentDuration::Ticks { ticks: durations[i], timescale: timescale_of(t) },
            false,
        )
}

/// `segments` is the plan of `rep` against `base`. A listed source yields
/// its URLs in order, numbered from zero. A template yields its
/// initialization segment first, where it has one, as number zero, then
/// its media segments, numbered on from there.
pub open spec fn plan_of(
    base: Seq<char>,
    rep: DashRepresentation,
    total_ms: Option<u64>,
    segments: Seq<StreamSegment>,
) -> bool {
    match rep.source {
        SegmentSource::List(urls) => {
            &&& segments.len() == urls.len()
            &&& forall|i: int|
                0 <= i < urls.len() ==> segment_is(
                    #[trigger] segments[i],
                    joined(base, urls[i]@),
                    i,
                    SegmentDuration::Unknown,
                    false,
                )
        },
        SegmentSource::Template(t) => {
            let shift: int = if t.initialization is Some {
                1
            } else {
                0
            };
            &&& t.initialization is Some ==> segments.len() > 0 && segment_is(
                segments[0],
                initialization_url(base, t.initialization->0@, rep.id@),
                0,
                SegmentDuration::Unknown,
                true,
            )
            &&& media_planned(base, rep.id@, t, media_durations(t, total_ms), shift, segments)
        },
    }
}

/// The plan of a representation is numbered 0, 1, 2, ... in order, so its
/// sequence numbers are unique and increase.
pub proof fn lemma_plan_is_numbered(
    base: Seq<char>,
    rep: DashRepresentation,
    total_ms: Option<u64>,
    segments: Seq<StreamSegment>,
)
    requires
        plan_of(base, rep, total_ms, segments),
    ensures
        forall|i: int| 0 <= i < segments.len() ==> (#[trigger] segments[i]).sequence == i,
        crate::common::sequences_increase(segments),
        forall|i: int| 0 < i < segments.len() ==> !(#[trigger] segments[i]).is_initialization,
{
    match rep.source {
        SegmentSource::List(urls) => {},
        SegmentSource::Template(t) => {
            let shift: int = if t.initialization is Some {
                1
            } else {
                0
            };
            assert forall|i: int| 0 <= i < segments.len() implies (#[trigger] segments[i]).sequence
                == i && (i > 0 ==> !segments[i].is_initialization) by {
                if i >= shift {
                    assert(segments[(i - shift) + shift] == segments[i]);
                }
            }
        },
    }
}

/// What one more timeline entry adds to the durations, and that the
/// durations of a part of a timeline are no more than those of the whole.
pub proof fn lemma_timeline_step(entries: Seq<TimelineEntry>, j: int)
    requires
        0 <= j < entries.len(),
    ensures
        timeline_durations(entries.take(j + 1)) == timeline_durations(entries.take(j)) + Seq::new(
            entry_count(entries[j]),
            |i: int| entries[j].duration,
        ),
        timeline_durations(entries.take(j + 1)).len() <= timeline_durations(entries).len(),
    decreases entries.len() - j,
{
    assert(entries.take(j + 1).drop_last() == entries.take(j));
    if j + 1 < entries.len() {
        lemma_timeline_step(entries, j + 1);
    }
}

/// Joins a segment reference to the base.
fn join(base: &Vec<char>, reference: &Vec<char>) -> (r: Vec<char>)
    ensures
        r@ == joined(base@, reference@),
{
    let mut out: Vec<char> = Vec::new();
    if !starts_with(reference, "http") {
        push_all(&mut out, base);
    }
    push_all(&mut out, reference);
    out
}

/// A segment without title and byte range.
fn plain_segment(url: &Vec<char>, sequence: u64, duration: SegmentDuration, initialization: bool) -> (s:
    StreamSegment)
    ensures
        segment_is(s, url@, sequence as int, duration, initialization),
{
    StreamSegment {
        url: from_chars(url),
        duration,
        sequence,
        byte_range: None,
        title: None,
        is_initialization: initialization,
    }
}

/// Appends the media segment number `index` of a template to `segments`.
fn push_media(
    segments: &mut Vec<StreamSegment>,
    base: &Vec<char>,
    with_id: &Vec<char>,
    start: u64,
    index: u64,
    shift: u64,
    ticks: u64,
    timescale: u64,
    Ghost(t): Ghost<SegmentTemplate>,
    Ghost(id): Ghost<Seq<char>>,
    Ghost(done): Ghost<Seq<u64>>,
)
    requires
        t.media is Some,
        with_id@ == replace_text(t.media->0@, "$RepresentationID$"@, id),
        start == first_number(t),
        timescale == timescale_of(t),
        shift <= 1,
        index == done.len(),
        start + index + 1 < u64::MAX,
        media_planned(base@, id, t, done, shift as int, old(segments)@),
    ensures
        media_planned(base@, id, t, done.push(ticks), shift as int, final(segments)@),
        forall|i: int| 0 <= i < old(segments).len() ==> final(segments)@[i] == old(segments)@[i],
        final(segments).len() == old(segments).len() + 1,
{
    let number = decimal(start + index);
    let url = join(base, &replace_all(with_id, "$Number$", &number));
    let segment = plain_segment(
        &url,
        index + shift,
        SegmentDuration::Ticks { ticks, timescale },
        false,
    );
    segments.push(segment);
}

/// Plans the segments of `rep` for a manifest whose base URL is `base` and
/// whose presentation lasts `total_ms` milliseconds. A representation without
/// usable source, or with more segments than can be numbered, is refused as
/// a manifest error.
#[verifier::loop_isolation(false)]
pub fn plan_segments(base: &str, rep: &DashRepresentation, total_ms: Option<u64>) -> (r: Result<
    Vec<StreamSegment>,
    StreamingError,
>)
    ensures
        plannable(*rep, total_ms) ==> r is Ok && plan_of(base@, *rep, total_ms, r->Ok_0@),
        !plannable(*rep, total_ms) ==> r matches Err(StreamingError::ManifestParseError(_)),
{
    let base_chars = to_chars(base);
    let mut segments: Vec<StreamSegment> = Vec::new();
    match &rep.source {
        SegmentSource::List(urls) => {
            let mut i: usize = 0;
            while i < urls.len()
                invariant
                    i <= urls.len(),
                    base_chars@ == base@,
                    segments.len() == i,
                    forall|k: int|
                        0 <= k < i ==> segment_is(
                            #[trigger] segments@[k],
                            joined(base@, urls@[k]@),
                            k,
                            SegmentDuration::Unknown,
                            false,
                        ),
                decreases urls.len() - i,
            {
                let reference = to_chars(urls[i].as_str());
                let url = join(&base_chars, &reference);
                segments.push(plain_segment(&url, i as u64, SegmentDuration::Unknown, false));
                i = i + 1;
            }
            Ok(segments)
        },
        SegmentSource::Template(t) => {
            let mut usable = t.media.is_some();
            if usable && t.timeline.is_none() {
                usable = match t.duration {
                    Some(d) => d > 0 && t.timescale.is_some() && total_ms.is_some(),
                    None => false,
                };
            }
            if !usable {
                return Err(
                    StreamingError::ManifestParseError(
                        "the representation has no usable segment template".to_owned(),
                    ),
                );
            }
            let id = to_chars(rep.id.as_str());
            let media = match &t.media {
                Some(m) => to_chars(m.as_str()),
                None => Vec::new(),
            };
            let with_id = replace_all(&media, "$RepresentationID$", &id);
            let start: u64 = match t.start_number {
                Some(n) => n as u64,
                None => 1,
            };
            let timescale: u64 = match t.timescale {
                Some(s) => s as u64,
                None => 1,
            };
            // Room for the numbers `start + i` and the sequence numbers `i + 1`.
            let limit: u64 = u64::MAX - start - 1;
            let shift: u64 = match &t.initialization {
                Some(pattern) => {
                    let p = to_chars(pattern.as_str());
                    let url = if starts_with(&p, "http") {
                        p
                    } else {
                        let mut u: Vec<char> = Vec::new();
                        push_all(&mut u, &base_chars);
                        push_all(&mut u, &replace_all(&p, "$RepresentationID$", &id));
                        u
                    };
                    segments.push(plain_segment(&url, 0, SegmentDuration::Unknown, true));
                    1
                },
                None => 0,
            };
            let ghost first = segments@;
            let ghost mut done: Seq<u64> = Seq::empty();
            match &t.timeline {
                Some(entries) => {
                    let mut produced: u64 = 0;
                    let mut j: usize = 0;
                    while j < entries.len()
                        invariant
                            j <= entries.len(),
                            t.media is Some,
                            t.timeline == Some(*entries),
                            template_usable(*t, total_ms),
                            base_chars@ == base@,
                            id@ == rep.id@,
                            with_id@ == replace_text(t.media->0@, "$RepresentationID$"@, id@),
                            start == first_number(*t),
                            timescale == timescale_of(*t),
                            limit == u64::MAX - start - 1,
                            shift <= 1,
                            shift == first.len(),
                            produced == done.len(),
                            produced <= limit,
                            done == timeline_durations(entries@.take(j as int)),
                            media_planned(base@, id@, *t, done, shift as int, segments@),
                            forall|i: int| 0 <= i < first.len() ==> segments@[i] == first[i],
                        decreases entries.len() - j,
                    {
                        let entry = entries[j];
                        let count: u64 = match entry.repeat {
                            Some(r) => if r >= 0 {
                                (r as u64) + 1
                            } else {
                                0
                            },
                            None => 1,
                        };
                        let ghost before = done;
                        proof {
                            lemma_timeline_step(entries@, j as int);
                        }
                        let mut k: u64 = 0;
                        while k < count
                            invariant
                                k <= count,
                                count == entry_count(entry),
                                t.media is Some,
                                base_chars@ == base@,
                                with_id@ == replace_text(t.media->0@, "$RepresentationID$"@, id@),
                                start == first_number(*t),
                                timescale == timescale_of(*t),
                                limit == u64::MAX - start - 1,
                                shift <= 1,
                                shift == first.len(),
                                produced == done.len(),
                                produced <= limit,
                                done == before + Seq::new(k as nat, |i: int| entry.duration),
                                before.len() + count <= timeline_durations(entries@).len(),
                                media_planned(base@, id@, *t, done, shift as int, segments@),
                                forall|i: int| 0 <= i < first.len() ==> segments@[i] == first[i],
                            decreases count - k,
                        {
                            if produced >= limit {
                                return Err(
                                    StreamingError::ManifestParseError(
                                        "the timeline has too many segments".to_owned(),
                                    ),
                                );
                            }
                            push_media(
                                &mut segments,
                                &base_chars,
                                &with_id,
                                start,
                                produced,
                                shift,
                                entry.duration,
                                timescale,
                                Ghost(*t),
                                Ghost(id@),
                                Ghost(done),
                            );
                            proof {
                                done = done.push(entry.duration);
                            }
                            produced = produced + 1;
                            k = k + 1;
                        }
                        j = j + 1;
                    }
                    proof {
                        assert(entries@.take(entries.len() as int) == entries@);
                    }
                },
                None => {
                    let total = total_ms.unwrap();
                    let duration = t.duration.unwrap();
                    let scale = t.timescale.unwrap();
                    let units: u128 = product(total, scale as u64);
                    assert(total * scale <= 0xffff_ffff_ffff_ffff * 0xffff_ffff) by (nonlinear_arith)
                        requires
                            0 <= total <= 0xffff_ffff_ffff_ffff,
                            0 <= scale <= 0xffff_ffff,
                    ;
                    let piece: u128 = (duration as u128) * 1000;
                    let count: u128 = (units + piece - 1) / piece;
                    if count > limit as u128 {
                        return Err(
                            StreamingError::ManifestParseError(
                                "the presentation has too many segments".to_owned(),
                            ),
                        );
                    }
                    let count: u64 = count as u64;
                    let mut produced: u64 = 0;
                    while produced < count
                        invariant
                            produced <= count,
                            count <= limit,
                            t.media is Some,
                            base_chars@ == base@,
                            with_id@ == replace_text(t.media->0@, "$RepresentationID$"@, id@),
                            start == first_number(*t),
                            timescale == timescale_of(*t),
                            limit == u64::MAX - start - 1,
                            shift <= 1,
                            shift == first.len(),
                            produced == done.len(),
                            done == Seq::new(produced as nat, |i: int| duration as u64),
                            media_planned(base@, id@, *t, done, shift as int, segments@),
                            forall|i: int| 0 <= i < first.len() ==> segments@[i] == first[i],
                        decreases count - produced,
                    {
                        push_media(
                            &mut segments,
                            &base_chars,
                            &with_id,
                            start,
                            produced,
                            shift,
                            duration as u64,
                            timescale,
                            Ghost(*t),
                            Ghost(id@),
                            Ghost(done),
                        );
                        proof {
                            done = done.push(duration as u64);
                        }
                        produced = produced + 1;
                    }
                },
            }
            assert(t.initialization is Some ==> segment_is(
                first[0],
                initialization_url(base@, t.initialization->0@, rep.id@),
                0,
                SegmentDuration::Unknown,
                true,
            ));
            Ok(segments)
        },
    }
}

} // verus!
