//! DASH: the MPD as the document states it, and the manifest model that is
//! made of it.

use vstd::prelude::*;
use crate::common::StreamType;
use crate::seqs::{kept, lemma_kept_step};
use crate::duration::{duration_ms_of, parse_duration_ms};
use crate::text::{contains, contains_text, is_text, to_chars};

verus! {

/// One `S` element of a segment timeline.
#[derive(Debug, Clone, Copy)]
pub struct TimelineEntry {
    /// Start time `t`, in timescale units.
    pub start: Option<u64>,
    /// Duration `d`, in timescale units.
    pub duration: u64,
    /// Repeat count `r`: how often the segment comes again.
    pub repeat: Option<i32>,
}

/// A `SegmentTemplate` element.
#[derive(Debug)]
pub struct SegmentTemplate {
    pub initialization: Option<String>,
    pub media: Option<String>,
    pub start_number: Option<u32>,
    /// Fixed segment duration, in timescale units.
    pub duration: Option<u32>,
    pub timescale: Option<u32>,
    pub timeline: Option<Vec<TimelineEntry>>,
}

/// A `Representation` element.
#[derive(Debug)]
pub struct MpdRepresentation {
    pub id: String,
    pub bandwidth: Option<u64>,
    pub width: Option<u32>,
    pub height: Option<u32>,
    pub codecs: Option<String>,
    pub mime_type: Option<String>,
    pub segment_template: Option<SegmentTemplate>,
    /// The `media` attributes of a `SegmentList`.
    pub segment_list: Option<Vec<String>>,
}

/// An `AdaptationSet` element.
#[derive(Debug)]
pub struct MpdAdaptationSet {
    pub id: Option<String>,
    pub content_type: Option<String>,
    pub mime_type: Option<String>,
    pub lang: Option<String>,
    pub representations: Vec<MpdRepresentation>,
    pub segment_template: Option<SegmentTemplate>,
}

/// A `Period` element.
#[derive(Debug)]
pub struct MpdPeriod {
    pub adaptation_sets: Vec<MpdAdaptationSet>,
}

/// An `MPD` document.
#[derive(Debug)]
pub struct MpdDocument {
    pub periods: Vec<MpdPeriod>,
    /// Length of the presentation in milliseconds.
    pub duration_ms: Option<u64>,
    /// The presentation is still being produced.
    pub dynamic: bool,
}

/// Whether the attributes `type` and `profiles` of an MPD say that the
/// presentation is still being produced: the type is `dynamic`, or the
/// profiles name a dynamic one.
pub open spec fn dynamic_of(mpd_type: Seq<char>, profiles: Seq<char>) -> bool {
    mpd_type == "dynamic"@ || contains_text(profiles, "dynamic"@)
}

/// The length in milliseconds that the attribute
/// `mediaPresentationDuration` states, where it states one that can be
/// read and fits 64 bits.
pub open spec fn stated_duration(text: Option<String>) -> Option<u64> {
    match text {
        Some(t) => match duration_ms_of(t@) {
            Some(ms) => if ms <= u64::MAX {
                Some(ms as u64)
            } else {
                None
            },
            None => None,
        },
        None => None,
    }
}

impl MpdDocument {
    /// The document with the given periods and the attributes
    /// `mediaPresentationDuration`, `type` and `profiles` of its root.
    pub fn from_attributes(
        periods: Vec<MpdPeriod>,
        media_presentation_duration: &Option<String>,
        mpd_type: &Option<String>,
        profiles: &Option<String>,
    ) -> (d: MpdDocument)
        ensures
            d.periods == periods,
            d.duration_ms == stated_duration(*media_presentation_duration),
            d.dynamic == dynamic_of(text_or_empty(*mpd_type), text_or_empty(*profiles)),
    {
        let duration_ms = match media_presentation_duration {
            Some(t) => parse_duration_ms(t.as_str()),
            None => None,
        };
        let kind = match mpd_type {
            Some(t) => to_chars(t.as_str()),
            None => Vec::new(),
        };
        let named = match profiles {
            Some(t) => to_chars(t.as_str()),
            None => Vec::new(),
        };
        let dynamic = is_text(&kind, "dynamic") || contains(&named, "dynamic");
        MpdDocument { periods, duration_ms, dynamic }
    }
}

/// Where the segments of a representation come from.
#[derive(Debug)]
pub enum SegmentSource {
    /// The URLs as the document lists them.
    List(Vec<String>),
    /// A URL pattern with a numbering rule.
    Template(SegmentTemplate),
}

/// One quality of an adaptation set, with what is needed to plan its
/// segments.
#[derive(Debug)]
pub struct DashRepresentation {
    pub id: String,
    /// bit/s.
    pub bandwidth: u64,
    pub codec: Option<String>,
    /// `(width, height)`.
    pub resolution: Option<(u32, u32)>,
    pub mime_type: Option<String>,
    pub source: SegmentSource,
}

/// Interchangeable renditions of one media component.
#[derive(Debug)]
pub struct DashAdaptationSet {
    pub id: String,
    pub stream_type: StreamType,
    pub language: Option<String>,
    /// Never empty.
    pub representations: Vec<DashRepresentation>,
}

/// A parsed DASH manifest.
#[derive(Debug)]
pub struct DashManifest {
    pub url: String,
    /// Length of the presentation in milliseconds.
    pub duration: Option<u64>,
    pub is_live: bool,
    pub video_adaptations: Vec<DashAdaptationSet>,
    pub audio_adaptations: Vec<DashAdaptationSet>,
    pub subtitle_adaptations: Vec<DashAdaptationSet>,
}

/// The text of an optional attribute; empty where it is absent.
pub open spec fn text_or_empty(s: Option<String>) -> Seq<char> {
    match s {
        Some(t) => t@,
        None => Seq::empty(),
    }
}

/// The stream type that the `contentType` and `mimeType` attributes of an
/// adaptation set stand for. The content type decides where it names a
/// type; the MIME type only where it does not.
pub open spec fn stream_type_of(content_type: Seq<char>, mime_type: Seq<char>) -> StreamType {
    if content_type == "video"@ {
        StreamType::Video
    } else if content_type == "audio"@ {
        StreamType::Audio
    } else if content_type == "text"@ || content_type == "subtitle"@ {
        StreamType::Subtitle
    } else if mime_type == "video/mp4"@ {
        StreamType::Video
    } else if mime_type == "audio/mp4"@ {
        StreamType::Audio
    } else if mime_type == "text/vtt"@ || mime_type == "application/ttml+xml"@ {
        StreamType::Subtitle
    } else {
        StreamType::Other
    }
}

/// Classifies an adaptation set by its `contentType` and `mimeType`.
pub fn classify(content_type: &Option<String>, mime_type: &Option<String>) -> (t: StreamType)
    ensures
        t == stream_type_of(text_or_empty(*content_type), text_or_empty(*mime_type)),
{
    let c = match content_type {
        Some(s) => to_chars(s.as_str()),
        None => Vec::new(),
    };
    let m = match mime_type {
        Some(s) => to_chars(s.as_str()),
        None => Vec::new(),
    };
    if is_text(&c, "video") {
        StreamType::Video
    } else if is_text(&c, "audio") {
        StreamType::Audio
    } else if is_text(&c, "text") || is_text(&c, "subtitle") {
        StreamType::Subtitle
    } else if is_text(&m, "video/mp4") {
        StreamType::Video
    } else if is_text(&m, "audio/mp4") {
        StreamType::Audio
    } else if is_text(&m, "text/vtt") || is_text(&m, "application/ttml+xml") {
        StreamType::Subtitle
    } else {
        StreamType::Other
    }
}

/// `a` and `b` state the same template.
pub open spec fn same_template(a: SegmentTemplate, b: SegmentTemplate) -> bool {
    &&& a.initialization == b.initialization
    &&& a.media == b.media
    &&& a.start_number == b.start_number
    &&& a.duration == b.duration
    &&& a.timescale == b.timescale
    &&& a.timeline is Some <==> b.timeline is Some
    &&& a.timeline is Some ==> a.timeline->0@ == b.timeline->0@
}

impl SegmentTemplate {
    /// A copy that states the same template.
    pub fn duplicate(&self) -> (r: SegmentTemplate)
        ensures
            same_template(r, *self),
    {
        let timeline = match &self.timeline {
            Some(entries) => {
                let mut copy: Vec<TimelineEntry> = Vec::new();
                let mut i: usize = 0;
                while i < entries.len()
                    invariant
                        i <= entries.len(),
                        copy@ == entries@.take(i as int),
                    decreases entries.len() - i,
                {
                    copy.push(entries[i]);
                    i = i + 1;
                }
                assert(entries@.take(entries.len() as int) == entries@);
                Some(copy)
            },
            None => None,
        };
        SegmentTemplate {
            initialization: match &self.initialization {
                Some(s) => Some(s.clone()),
                None => None,
            },
            media: match &self.media {
                Some(s) => Some(s.clone()),
                None => None,
            },
            start_number: self.start_number,
            duration: self.duration,
            timescale: self.timescale,
            timeline,
        }
    }
}

/// The template that applies to a representation: its own, else that of
/// its adaptation set.
pub open spec fn effective_template(
    rep: MpdRepresentation,
    set: MpdAdaptationSet,
) -> Option<SegmentTemplate> {
    if rep.segment_template is Some {
        rep.segment_template
    } else {
        set.segment_template
    }
}

/// Segments can be planned from `t`: it has a media pattern and either a
/// timeline or a fixed, positive segment duration with a timescale in a
/// presentation of known length.
pub open spec fn template_usable(t: SegmentTemplate, total_ms: Option<u64>) -> bool {
    &&& t.media is Some
    &&& (t.timeline is Some || (t.duration is Some && t.duration->0 > 0 && t.timescale is Some
        && total_ms is Some))
}

/// Segments can be planned for `rep`: it lists them, or a usable template
/// applies to it.
pub open spec fn usable(
    rep: MpdRepresentation,
    set: MpdAdaptationSet,
    total_ms: Option<u64>,
) -> bool {
    rep.segment_list is Some || (effective_template(rep, set) is Some && template_usable(
        effective_template(rep, set)->0,
        total_ms,
    ))
}

/// `source` is the segment source of `rep`: its list where it has one, else
/// the template that applies to it.
pub open spec fn source_of(
    rep: MpdRepresentation,
    set: MpdAdaptationSet,
    source: SegmentSource,
) -> bool {
    match rep.segment_list {
        Some(list) => source matches SegmentSource::List(urls) && urls@ == list@,
        None => effective_template(rep, set) is Some && (source matches SegmentSource::Template(
            t,
        ) && same_template(t, effective_template(rep, set)->0)),
    }
}

/// The picture size that a representation states, where it states both
/// sides.
pub open spec fn stated_resolution(rep: MpdRepresentation) -> Option<(u32, u32)> {
    match (rep.width, rep.height) {
        (Some(w), Some(h)) => Some((w, h)),
        _ => None,
    }
}

/// The bandwidth that a representation states; zero where it states none.
pub open spec fn stated_bandwidth(rep: MpdRepresentation) -> u64 {
    match rep.bandwidth {
        Some(b) => b,
        None => 0,
    }
}

/// `out` is the representation that the element `rep` of `set` stands for.
pub open spec fn representation_of(
    rep: MpdRepresentation,
    set: MpdAdaptationSet,
    out: DashRepresentation,
) -> bool {
    &&& out.id == rep.id
    &&& out.bandwidth == stated_bandwidth(rep)
    &&& out.codec == rep.codecs
    &&& out.resolution == stated_resolution(rep)
    &&& out.mime_type == rep.mime_type
    &&& source_of(rep, set, out.source)
}

/// Whether segments can be planned from `t`.
fn check_template(t: &SegmentTemplate, total_ms: Option<u64>) -> (r: bool)
    ensures
        r == template_usable(*t, total_ms),
{
    if t.media.is_none() {
        return false;
    }
    if t.timeline.is_some() {
        return true;
    }
    match t.duration {
        Some(d) => d > 0 && t.timescale.is_some() && total_ms.is_some(),
        None => false,
    }
}

/// A copy of an optional string.
fn copy_text(s: &Option<String>) -> (r: Option<String>)
    ensures
        r == *s,
{
    match s {
        Some(t) => Some(t.clone()),
        None => None,
    }
}

/// A copy of a list of strings.
fn copy_list(list: &Vec<String>) -> (r: Vec<String>)
    ensures
        r@ == list@,
{
    let mut copy: Vec<String> = Vec::new();
    let mut i: usize = 0;
    while i < list.len()
        invariant
            i <= list.len(),
            copy@ == list@.take(i as int),
        decreases list.len() - i,
    {
        copy.push(list[i].clone());
        i = i + 1;
    }
    copy
}

/// Makes the representation that `rep` of `set` stands for, or nothing
/// where no segments can be planned for it.
pub fn convert_representation(
    rep: &MpdRepresentation,
    set: &MpdAdaptationSet,
    total_ms: Option<u64>,
) -> (r: Option<DashRepresentation>)
    ensures
        r is Some <==> usable(*rep, *set, total_ms),
        r matches Some(out) ==> representation_of(*rep, *set, out),
{
    let source = match &rep.segment_list {
        Some(list) => SegmentSource::List(copy_list(list)),
        None => {
            let template = match &rep.segment_template {
                Some(t) => Some(t),
                None => match &set.segment_template {
                    Some(t) => Some(t),
                    None => None,
                },
            };
            match template {
                Some(t) => {
                    if check_template(t, total_ms) {
                        SegmentSource::Template(t.duplicate())
                    } else {
                        return None;
                    }
                },
                None => {
                    return None;
                },
            }
        },
    };
    let resolution = match (rep.width, rep.height) {
        (Some(w), Some(h)) => Some((w, h)),
        _ => None,
    };
    Some(
        DashRepresentation {
            id: rep.id.clone(),
            bandwidth: match rep.bandwidth {
                Some(b) => b,
                None => 0,
            },
            codec: copy_text(&rep.codecs),
            resolution,
            mime_type: copy_text(&rep.mime_type),
            source,
        },
    )
}

/// For each representation of `set`, whether segments can be planned for
/// it.
pub open spec fn usable_flags(set: MpdAdaptationSet, total_ms: Option<u64>) -> Seq<bool> {
    Seq::new(
        set.representations.len() as nat,
        |i: int| usable(set.representations[i], set, total_ms),
    )
}

/// `reps` are what the usable ones among the first `n` representations of
/// `set` stand for, in document order.
pub open spec fn representations_of(
    set: MpdAdaptationSet,
    total_ms: Option<u64>,
    n: int,
    reps: Seq<DashRepresentation>,
) -> bool {
    let positions = kept(usable_flags(set, total_ms).take(n));
    &&& reps.len() == positions.len()
    &&& forall|k: int|
        0 <= k < positions.len() ==> representation_of(
            set.representations[positions[k]],
            set,
            #[trigger] reps[k],
        )
}

/// `out` is the adaptation set that the element `set` stands for: its
/// type by classification, and its usable representations.
pub open spec fn adaptation_set_of(
    set: MpdAdaptationSet,
    total_ms: Option<u64>,
    out: DashAdaptationSet,
) -> bool {
    &&& out.id@ == text_or_empty(set.id)
    &&& out.stream_type == stream_type_of(
        text_or_empty(set.content_type),
        text_or_empty(set.mime_type),
    )
    &&& out.language == set.lang
    &&& representations_of(set, total_ms, set.representations.len() as int, out.representations@)
}

/// Makes the adaptation set that `set` stands for.
pub fn convert_adaptation_set(set: &MpdAdaptationSet, total_ms: Option<u64>) -> (out:
    DashAdaptationSet)
    ensures
        adaptation_set_of(*set, total_ms, out),
{
    let mut reps: Vec<DashRepresentation> = Vec::new();
    let n = set.representations.len();
    let ghost flags = usable_flags(*set, total_ms);
    let mut i: usize = 0;
    while i < n
        invariant
            i <= n,
            n == set.representations.len(),
            flags == usable_flags(*set, total_ms),
            representations_of(*set, total_ms, i as int, reps@),
        decreases n - i,
    {
        proof {
            lemma_kept_step(flags, i as int);
        }
        match convert_representation(&set.representations[i], set, total_ms) {
            Some(rep) => {
                reps.push(rep);
            },
            None => {},
        }
        i = i + 1;
    }
    let id = match &set.id {
        Some(s) => s.clone(),
        None => String::new(),
    };
    DashAdaptationSet {
        id,
        stream_type: classify(&set.content_type, &set.mime_type),
        language: copy_text(&set.lang),
        representations: reps,
    }
}

/// All adaptation sets of the periods, in document order.
pub open spec fn document_sets(periods: Seq<MpdPeriod>) -> Seq<MpdAdaptationSet>
    decreases periods.len(),
{
    if periods.len() == 0 {
        Seq::empty()
    } else {
        document_sets(periods.drop_last()) + periods.last().adaptation_sets@
    }
}

/// The adaptation set belongs in the list of type `kind`: it is of that
/// type and has a usable representation.
pub open spec fn listed(set: MpdAdaptationSet, kind: StreamType, total_ms: Option<u64>) -> bool {
    &&& stream_type_of(text_or_empty(set.content_type), text_or_empty(set.mime_type)) == kind
    &&& kept(usable_flags(set, total_ms)).len() > 0
}

/// For each of `sets`, whether it belongs in the list of type `kind`.
pub open spec fn listed_flags(
    sets: Seq<MpdAdaptationSet>,
    kind: StreamType,
    total_ms: Option<u64>,
) -> Seq<bool> {
    Seq::new(sets.len(), |i: int| listed(sets[i], kind, total_ms))
}

/// `list` holds what those of `sets` stand for that belong in the list of
/// type `kind`, in document order.
pub open spec fn list_of(
    sets: Seq<MpdAdaptationSet>,
    kind: StreamType,
    total_ms: Option<u64>,
    list: Seq<DashAdaptationSet>,
) -> bool {
    let positions = kept(listed_flags(sets, kind, total_ms));
    &&& list.len() == positions.len()
    &&& forall|k: int|
        0 <= k < positions.len() ==> adaptation_set_of(
            sets[positions[k]],
            total_ms,
            #[trigger] list[k],
        )
}

/// `m` is the manifest that the document `mpd`, fetched from `url`, stands
/// for.
pub open spec fn manifest_of(mpd: MpdDocument, url: Seq<char>, m: DashManifest) -> bool {
    let sets = document_sets(mpd.periods@);
    &&& m.url@ == url
    &&& m.duration == mpd.duration_ms
    &&& m.is_live == mpd.dynamic
    &&& list_of(sets, StreamType::Video, mpd.duration_ms, m.video_adaptations@)
    &&& list_of(sets, StreamType::Audio, mpd.duration_ms, m.audio_adaptations@)
    &&& list_of(sets, StreamType::Subtitle, mpd.duration_ms, m.subtitle_adaptations@)
}

/// Every adaptation set of the manifest has a representation.
pub open spec fn sets_nonempty(m: DashManifest) -> bool {
    &&& forall|k: int|
        0 <= k < m.video_adaptations.len() ==> (#[trigger] m.video_adaptations[k]).representations.len()
            > 0
    &&& forall|k: int|
        0 <= k < m.audio_adaptations.len() ==> (#[trigger] m.audio_adaptations[k]).representations.len()
            > 0
    &&& forall|k: int|
        0 <= k < m.subtitle_adaptations.len() ==> (
        #[trigger] m.subtitle_adaptations[k]).representations.len() > 0
}

/// One more adaptation set, filed or not, keeps a list in step with the
/// sets seen so far.
proof fn lemma_list_step(
    seen: Seq<MpdAdaptationSet>,
    set: MpdAdaptationSet,
    kind: StreamType,
    total_ms: Option<u64>,
    list: Seq<DashAdaptationSet>,
    out: DashAdaptationSet,
)
    requires
        list_of(seen, kind, total_ms, list),
        adaptation_set_of(set, total_ms, out),
    ensures
        listed(set, kind, total_ms) ==> list_of(seen.push(set), kind, total_ms, list.push(out)),
        !listed(set, kind, total_ms) ==> list_of(seen.push(set), kind, total_ms, list),
{
    let all = seen.push(set);
    let flags = listed_flags(all, kind, total_ms);
    assert(flags.drop_last() == listed_flags(seen, kind, total_ms));
    crate::seqs::lemma_kept_sound(listed_flags(seen, kind, total_ms));
}

/// Makes the manifest model of the MPD document `mpd` that was fetched
/// from `url`: every adaptation set of every period is classified and
/// filed under video, audio or subtitles, but for sets of another type and
/// sets without a usable representation.
pub fn manifest_from_mpd(mpd: &MpdDocument, url: &str) -> (m: DashManifest)
    ensures
        manifest_of(*mpd, url@, m),
        sets_nonempty(m),
{
    let total = mpd.duration_ms;
    let mut video: Vec<DashAdaptationSet> = Vec::new();
    let mut audio: Vec<DashAdaptationSet> = Vec::new();
    let mut subtitle: Vec<DashAdaptationSet> = Vec::new();
    let mut p: usize = 0;
    while p < mpd.periods.len()
        invariant
            p <= mpd.periods.len(),
            total == mpd.duration_ms,
            list_of(document_sets(mpd.periods@.take(p as int)), StreamType::Video, total, video@),
            list_of(document_sets(mpd.periods@.take(p as int)), StreamType::Audio, total, audio@),
            list_of(
                document_sets(mpd.periods@.take(p as int)),
                StreamType::Subtitle,
                total,
                subtitle@,
            ),
            forall|k: int| 0 <= k < video.len() ==> (#[trigger] video[k]).representations.len() > 0,
            forall|k: int| 0 <= k < audio.len() ==> (#[trigger] audio[k]).representations.len() > 0,
            forall|k: int|
                0 <= k < subtitle.len() ==> (#[trigger] subtitle[k]).representations.len() > 0,
        decreases mpd.periods.len() - p,
    {
        let period = &mpd.periods[p];
        let ghost before = document_sets(mpd.periods@.take(p as int));
        let mut a: usize = 0;
        while a < period.adaptation_sets.len()
            invariant
                a <= period.adaptation_sets.len(),
                total == mpd.duration_ms,
                list_of(before + period.adaptation_sets@.take(a as int), StreamType::Video, total, video@),
                list_of(before + period.adaptation_sets@.take(a as int), StreamType::Audio, total, audio@),
                list_of(
                    before + period.adaptation_sets@.take(a as int),
                    StreamType::Subtitle,
                    total,
                    subtitle@,
                ),
                forall|k: int|
                    0 <= k < video.len() ==> (#[trigger] video[k]).representations.len() > 0,
                forall|k: int|
                    0 <= k < audio.len() ==> (#[trigger] audio[k]).representations.len() > 0,
                forall|k: int|
                    0 <= k < subtitle.len() ==> (#[trigger] subtitle[k]).representations.len() > 0,
            decreases period.adaptation_sets.len() - a,
        {
            let set = &period.adaptation_sets[a];
            let out = convert_adaptation_set(set, total);
            let ghost seen = before + period.adaptation_sets@.take(a as int);
            proof {
                assert(before + period.adaptation_sets@.take(a + 1) == seen.push(*set));
                lemma_list_step(seen, *set, StreamType::Video, total, video@, out);
                lemma_list_step(seen, *set, StreamType::Audio, total, audio@, out);
                lemma_list_step(seen, *set, StreamType::Subtitle, total, subtitle@, out);
                assert(usable_flags(*set, total).take(set.representations.len() as int)
                    == usable_flags(*set, total));
            }
            if out.representations.len() > 0 {
                match out.stream_type {
                    StreamType::Video => {
                        video.push(out);
                    },
                    StreamType::Audio => {
                        audio.push(out);
                    },
                    StreamType::Subtitle => {
                        subtitle.push(out);
                    },
                    _ => {},
                }
            }
            a = a + 1;
        }
        proof {
            assert(period.adaptation_sets@.take(period.adaptation_sets.len() as int)
                == period.adaptation_sets@);
            assert(mpd.periods@.take(p + 1).drop_last() == mpd.periods@.take(p as int));
        }
        p = p + 1;
    }
    proof {
        assert(mpd.periods@.take(mpd.periods.len() as int) == mpd.periods@);
    }
    DashManifest {
        url: url.to_owned(),
        duration: mpd.duration_ms,
        is_live: mpd.dynamic,
        video_adaptations: video,
        audio_adaptations: audio,
        subtitle_adaptations: subtitle,
    }
}

} // verus!
