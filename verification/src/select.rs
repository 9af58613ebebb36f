//! Rendition selection: which of several renditions of one stream is
//! downloaded under the user's bounds.
//!
//! Bounds are preferences. Where no rendition meets them, every rendition is
//! eligible again. Among the eligible ones the first of highest rank wins.

use vstd::prelude::*;
use crate::common::{product, StreamingOptions};

verus! {

/// What selection looks at in a rendition.
#[derive(Debug, Clone, Copy)]
pub struct Candidate {
    /// `(width, height)`.
    pub resolution: Option<(u64, u64)>,
    /// bit/s.
    pub bandwidth: u64,
}

/// The media component a selection is made for.
#[derive(Debug, Clone, Copy, PartialEq, Eq, Structural)]
pub enum Track {
    Video,
    Audio,
}

/// Number of pixels of a picture; zero where the size is unknown.
pub open spec fn pixel_area(resolution: Option<(u64, u64)>) -> int {
    match resolution {
        Some((w, h)) => w * h,
        None => 0,
    }
}

/// The picture of `c` is within the resolution bounds of `o`, by area.
/// A rendition of unknown size always is.
pub open spec fn within_resolution(c: Candidate, o: StreamingOptions) -> bool {
    match c.resolution {
        None => true,
        Some((w, h)) => {
            &&& o.max_resolution matches Some(m) ==> w * h <= m.0 * m.1
            &&& o.min_resolution matches Some(m) ==> w * h >= m.0 * m.1
        },
    }
}

/// The bandwidth of `c` is within the bitrate bounds of `o`.
pub open spec fn within_bitrate(c: Candidate, o: StreamingOptions) -> bool {
    &&& o.max_bitrate matches Some(m) ==> c.bandwidth <= m * 1000
    &&& o.min_bitrate matches Some(m) ==> c.bandwidth >= m * 1000
}

/// `c` meets the bounds that apply to `track`.
pub open spec fn acceptable(track: Track, c: Candidate, o: StreamingOptions) -> bool {
    match track {
        Track::Video => within_resolution(c, o) && within_bitrate(c, o),
        Track::Audio => within_bitrate(c, o),
    }
}

/// `a` ranks strictly above `b`: for video by area, then bandwidth; for
/// audio by bandwidth alone.
pub open spec fn outranks(track: Track, a: Candidate, b: Candidate) -> bool {
    match track {
        Track::Video => pixel_area(a.resolution) > pixel_area(b.resolution) || (pixel_area(
            a.resolution,
        ) == pixel_area(b.resolution) && a.bandwidth > b.bandwidth),
        Track::Audio => a.bandwidth > b.bandwidth,
    }
}

/// Some candidate meets the bounds.
pub open spec fn any_acceptable(track: Track, cs: Seq<Candidate>, o: StreamingOptions) -> bool {
    exists|i: int| 0 <= i < cs.len() && acceptable(track, #[trigger] cs[i], o)
}

/// Candidate `i` takes part in the ranking: it meets the bounds, or nothing
/// does.
pub open spec fn eligible(track: Track, cs: Seq<Candidate>, o: StreamingOptions, i: int) -> bool {
    0 <= i < cs.len() && (any_acceptable(track, cs, o) ==> acceptable(track, cs[i], o))
}

/// Candidate `i` is eligible, nothing eligible outranks it, and it outranks
/// every eligible candidate before it.
pub open spec fn is_winner(track: Track, cs: Seq<Candidate>, o: StreamingOptions, i: int) -> bool {
    &&& eligible(track, cs, o, i)
    &&& forall|j: int| #[trigger]
        eligible(track, cs, o, j) ==> !outranks(track, cs[j], cs[i]) && (j < i ==> outranks(
            track,
            cs[i],
            cs[j],
        ))
}

/// There is at most one winner.
pub proof fn lemma_winner_unique(
    track: Track,
    cs: Seq<Candidate>,
    o: StreamingOptions,
    i: int,
    j: int,
)
    requires
        is_winner(track, cs, o, i),
        is_winner(track, cs, o, j),
    ensures
        i == j,
{
}

/// Where every candidate meets the bounds, or none does, the bounds do not
/// matter: the winner is the winner without bounds.
pub proof fn lemma_bounds_are_preferences(
    track: Track,
    cs: Seq<Candidate>,
    o: StreamingOptions,
    unbounded: StreamingOptions,
    i: int,
)
    requires
        !any_acceptable(track, cs, o) || forall|j: int|
            0 <= j < cs.len() ==> acceptable(track, #[trigger] cs[j], o),
        unbounded.max_resolution is None,
        unbounded.min_resolution is None,
        unbounded.max_bitrate is None,
        unbounded.min_bitrate is None,
        is_winner(track, cs, o, i),
    ensures
        is_winner(track, cs, unbounded, i),
{
    assert forall|j: int| #[trigger] eligible(track, cs, unbounded, j) implies !outranks(
        track,
        cs[j],
        cs[i],
    ) && (j < i ==> outranks(track, cs[i], cs[j])) by {
        assert(eligible(track, cs, o, j));
    }
}

/// Whether the picture of `c` is within the resolution bounds.
fn check_resolution(c: &Candidate, o: &StreamingOptions) -> (r: bool)
    ensures
        r == within_resolution(*c, *o),
{
    match c.resolution {
        None => true,
        Some((w, h)) => {
            let area: u128 = product(w, h);
            let below = match o.max_resolution {
                Some(m) => area <= product(m.0 as u64, m.1 as u64),
                None => true,
            };
            let above = match o.min_resolution {
                Some(m) => area >= product(m.0 as u64, m.1 as u64),
                None => true,
            };
            below && above
        },
    }
}

/// Whether the bandwidth of `c` is within the bitrate bounds.
fn check_bitrate(c: &Candidate, o: &StreamingOptions) -> (r: bool)
    ensures
        r == within_bitrate(*c, *o),
{
    let below = match o.max_bitrate {
        Some(m) => (c.bandwidth as u128) <= (m as u128) * 1000,
        None => true,
    };
    let above = match o.min_bitrate {
        Some(m) => (c.bandwidth as u128) >= (m as u128) * 1000,
        None => true,
    };
    below && above
}

/// Whether `c` meets the bounds that apply to `track`.
pub fn check_acceptable(track: Track, c: &Candidate, o: &StreamingOptions) -> (r: bool)
    ensures
        r == acceptable(track, *c, *o),
{
    match track {
        Track::Video => check_resolution(c, o) && check_bitrate(c, o),
        Track::Audio => check_bitrate(c, o),
    }
}

/// Whether `a` ranks strictly above `b`.
pub fn check_outranks(track: Track, a: &Candidate, b: &Candidate) -> (r: bool)
    ensures
        r == outranks(track, *a, *b),
{
    match track {
        Track::Video => {
            let area_a: u128 = match a.resolution {
                Some((w, h)) => product(w, h),
                None => 0,
            };
            let area_b: u128 = match b.resolution {
                Some((w, h)) => product(w, h),
                None => 0,
            };
            area_a > area_b || (area_a == area_b && a.bandwidth > b.bandwidth)
        },
        Track::Audio => a.bandwidth > b.bandwidth,
    }
}

/// Picks the rendition to download: the index of the winner among
/// `candidates`. Only an empty list has none.
pub fn select(track: Track, candidates: &Vec<Candidate>, options: &StreamingOptions) -> (r: Option<
    usize,
>)
    ensures
        candidates.len() == 0 ==> r is None,
        candidates.len() > 0 ==> r is Some && is_winner(
            track,
            candidates@,
            *options,
            r->0 as int,
        ),
{
    let n = candidates.len();
    if n == 0 {
        return None;
    }
    let mut any = false;
    let mut k: usize = 0;
    while k < n
        invariant
            k <= n,
            n == candidates.len(),
            any == exists|i: int| 0 <= i < k && acceptable(track, #[trigger] candidates@[i], *options),
        decreases n - k,
    {
        if check_acceptable(track, &candidates[k], options) {
            any = true;
        }
        k = k + 1;
    }

    let mut best: Option<usize> = None;
    let mut i: usize = 0;
    while i < n
        invariant
            i <= n,
            n == candidates.len(),
            n > 0,
            any == any_acceptable(track, candidates@, *options),
            best matches Some(b) ==> b < i && eligible(track, candidates@, *options, b as int),
            best is None ==> forall|j: int| 0 <= j < i ==> !eligible(track, candidates@, *options, j),
            best matches Some(b) ==> forall|j: int|
                0 <= j < i && #[trigger] eligible(track, candidates@, *options, j) ==> !outranks(
                    track,
                    candidates@[j],
                    candidates@[b as int],
                ) && (j < b ==> outranks(track, candidates@[b as int], candidates@[j])),
        decreases n - i,
    {
        let in_pool = !any || check_acceptable(track, &candidates[i], options);
        if in_pool {
            match best {
                None => {
                    best = Some(i);
                },
                Some(b) => {
                    if check_outranks(track, &candidates[i], &candidates[b]) {
                        best = Some(i);
                    }
                },
            }
        }
        i = i + 1;
    }
    proof {
        if best is None {
            if any {
                let w = choose|w: int|
                    0 <= w < candidates@.len() && acceptable(
                        track,
                        #[trigger] candidates@[w],
                        *options,
                    );
                assert(eligible(track, candidates@, *options, w));
            } else {
                assert(eligible(track, candidates@, *options, 0));
            }
        }
    }
    best
}

} // verus!
