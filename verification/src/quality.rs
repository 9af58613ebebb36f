//! Which variant of an HLS master playlist and which representations of a
//! DASH manifest are downloaded.

use vstd::prelude::*;
use crate::common::{StreamingError, StreamingOptions};
use crate::dash::{DashManifest, DashRepresentation};
use crate::hls::HlsVariant;
use crate::select::{select, is_winner, Candidate, Track};

verus! {

/// What selection looks at in a variant.
pub open spec fn variant_candidate(v: HlsVariant) -> Candidate {
    Candidate { resolution: v.resolution, bandwidth: v.bandwidth }
}

/// What selection looks at in a representation.
pub open spec fn representation_candidate(r: DashRepresentation) -> Candidate {
    Candidate {
        resolution: match r.resolution {
            Some((w, h)) => Some((w as u64, h as u64)),
            None => None,
        },
        bandwidth: r.bandwidth,
    }
}

/// `index` is the variant to download: the winner among the variants as
/// video candidates.
pub open spec fn best_variant(variants: Seq<HlsVariant>, o: StreamingOptions, index: int) -> bool {
    is_winner(Track::Video, variants.map_values(|v: HlsVariant| variant_candidate(v)), o, index)
}

/// `index` is the representation to download for `track`.
pub open spec fn best_representation(
    track: Track,
    reps: Seq<DashRepresentation>,
    o: StreamingOptions,
    index: int,
) -> bool {
    is_winner(
        track,
        reps.map_values(|r: DashRepresentation| representation_candidate(r)),
        o,
        index,
    )
}

/// The index of the variant to download; none only where there is no
/// variant.
pub fn best_variant_index(variants: &Vec<HlsVariant>, options: &StreamingOptions) -> (r: Option<
    usize,
>)
    ensures
        variants.len() == 0 ==> r is None,
        variants.len() > 0 ==> r is Some && r->0 < variants.len() && best_variant(
            variants@,
            *options,
            r->0 as int,
        ),
{
    let mut candidates: Vec<Candidate> = Vec::new();
    let mut i: usize = 0;
    while i < variants.len()
        invariant
            i <= variants.len(),
            candidates@ == variants@.take(i as int).map_values(
                |v: HlsVariant| variant_candidate(v),
            ),
        decreases variants.len() - i,
    {
        let v = &variants[i];
        candidates.push(Candidate { resolution: v.resolution, bandwidth: v.bandwidth });
        i = i + 1;
    }
    assert(variants@.take(variants.len() as int) == variants@);
    select(Track::Video, &candidates, options)
}

/// Picks the variant of a master playlist to download. A playlist without
/// variants has no suitable rendition.
pub fn select_best_variant(variants: &Vec<HlsVariant>, options: &StreamingOptions) -> (r: Result<
    HlsVariant,
    StreamingError,
>)
    ensures
        variants.len() == 0 ==> r matches Err(StreamingError::NoSuitableRendition),
        variants.len() > 0 ==> r is Ok && exists|i: int|
            0 <= i < variants.len() && best_variant(variants@, *options, i) && r->Ok_0
                == variants@[i],
{
    match best_variant_index(variants, options) {
        Some(i) => Ok(variants[i].duplicate()),
        None => Err(StreamingError::NoSuitableRendition),
    }
}

/// `chosen` is the choice for `track` among `reps`: the winner, and
/// nothing only where there is no representation.
pub open spec fn choice_of(
    track: Track,
    reps: Seq<DashRepresentation>,
    o: StreamingOptions,
    chosen: Option<&DashRepresentation>,
) -> bool {
    if reps.len() == 0 {
        chosen is None
    } else {
        chosen is Some && exists|i: int|
            0 <= i < reps.len() && best_representation(track, reps, o, i) && *chosen->0 == reps[i]
    }
}

/// Picks the representation of `track` among `reps`.
pub fn choose_representation<'a>(
    track: Track,
    reps: &'a Vec<DashRepresentation>,
    options: &StreamingOptions,
) -> (r: Option<&'a DashRepresentation>)
    ensures
        choice_of(track, reps@, *options, r),
{
    let mut candidates: Vec<Candidate> = Vec::new();
    let mut i: usize = 0;
    while i < reps.len()
        invariant
            i <= reps.len(),
            candidates@ == reps@.take(i as int).map_values(
                |r: DashRepresentation| representation_candidate(r),
            ),
        decreases reps.len() - i,
    {
        let r = &reps[i];
        let resolution = match r.resolution {
            Some((w, h)) => Some((w as u64, h as u64)),
            None => None,
        };
        candidates.push(Candidate { resolution, bandwidth: r.bandwidth });
        i = i + 1;
    }
    assert(reps@.take(reps.len() as int) == reps@);
    match select(track, &candidates, options) {
        Some(i) => Some(&reps[i]),
        None => None,
    }
}

/// The representations among which the choice for `track` is made: those
/// of the first adaptation set of that kind, and none where the options
/// rule the track out or the manifest has no such set.
pub open spec fn offered(track: Track, m: DashManifest, o: StreamingOptions) -> Seq<
    DashRepresentation,
> {
    match track {
        Track::Video => if !o.audio_only && m.video_adaptations.len() > 0 {
            m.video_adaptations[0].representations@
        } else {
            Seq::empty()
        },
        Track::Audio => if !o.video_only && m.audio_adaptations.len() > 0 {
            m.audio_adaptations[0].representations@
        } else {
            Seq::empty()
        },
    }
}

/// Picks the video and the audio representation of a manifest to
/// download. Where neither is left, there is no suitable rendition.
pub fn select_best_quality<'a>(manifest: &'a DashManifest, options: &StreamingOptions) -> (r:
    Result<(Option<&'a DashRepresentation>, Option<&'a DashRepresentation>), StreamingError>)
    ensures
        offered(Track::Video, *manifest, *options).len() == 0 && offered(
            Track::Audio,
            *manifest,
            *options,
        ).len() == 0 <==> r is Err,
        r is Err ==> r matches Err(StreamingError::NoSuitableRendition),
        r matches Ok((video, audio)) ==> choice_of(
            Track::Video,
            offered(Track::Video, *manifest, *options),
            *options,
            video,
        ) && choice_of(Track::Audio, offered(Track::Audio, *manifest, *options), *options, audio),
{
    let video = if !options.audio_only && manifest.video_adaptations.len() > 0 {
        choose_representation(Track::Video, &manifest.video_adaptations[0].representations, options)
    } else {
        None
    };
    let audio = if !options.video_only && manifest.audio_adaptations.len() > 0 {
        choose_representation(Track::Audio, &manifest.audio_adaptations[0].representations, options)
    } else {
        None
    };
    if video.is_none() && audio.is_none() {
        Err(StreamingError::NoSuitableRendition)
    } else {
        Ok((video, audio))
    }
}

} // verus!
