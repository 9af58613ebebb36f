//! Resume state of one download: which segments are already on disk.

use vstd::prelude::*;
use crate::common::StreamingError;
use crate::text::{from_chars, last_index_of, push_str, rfind, to_chars};

verus! {

/// What a resume state says, as mathematics.
pub struct StateModel {
    pub source_url: Seq<char>,
    pub output_path: Seq<char>,
    pub total_segments: nat,
    pub completed: Set<usize>,
    pub mapping: Map<Seq<char>, Seq<char>>,
    pub updated_at: i64,
}

/// The map that a list of `(url, path)` pairs stands for; a later pair
/// overrides an earlier one with the same URL.
pub open spec fn pairs_map(pairs: Seq<(String, String)>) -> Map<Seq<char>, Seq<char>>
    decreases pairs.len(),
{
    if pairs.len() == 0 {
        Map::empty()
    } else {
        pairs_map(pairs.drop_last()).insert(pairs.last().0@, pairs.last().1@)
    }
}

/// `state` with segment `index` marked as completed at time `now`. An
/// index outside the download, or one that is already marked, changes
/// nothing.
pub open spec fn marked(state: StateModel, index: usize, now: i64) -> StateModel {
    if index < state.total_segments && !state.completed.contains(index) {
        StateModel { completed: state.completed.insert(index), updated_at: now, ..state }
    } else {
        state
    }
}

/// Marking a segment a second time changes nothing, whenever it happens.
pub proof fn lemma_mark_idempotent(state: StateModel, index: usize, first: i64, second: i64)
    ensures
        marked(marked(state, index, first), index, second) == marked(state, index, first),
{
}

/// Marking keeps the completed segments inside the download, and adds at
/// most the marked one.
pub proof fn lemma_mark_stays_in_range(state: StateModel, index: usize, now: i64)
    requires
        forall|i: usize| state.completed.contains(i) ==> i < state.total_segments,
    ensures
        forall|i: usize| #[trigger]
            marked(state, index, now).completed.contains(i) ==> i < state.total_segments,
        forall|i: usize|
            i != index ==> (#[trigger] marked(state, index, now).completed.contains(i)
                <==> state.completed.contains(i)),
{
}

/// The stored form of a state: its fields as plain values.
#[derive(Debug)]
pub struct StateParts {
    pub source_url: String,
    pub output_path: String,
    pub total_segments: usize,
    pub completed_segments: Vec<usize>,
    /// `(url, path)` pairs; a later pair overrides an earlier one.
    pub segment_mapping: Vec<(String, String)>,
    /// Seconds since the epoch.
    pub updated_at: i64,
}

/// What stored parts say.
pub open spec fn parts_model(p: StateParts) -> StateModel {
    StateModel {
        source_url: p.source_url@,
        output_path: p.output_path@,
        total_segments: p.total_segments as nat,
        completed: p.completed_segments@.to_set(),
        mapping: pairs_map(p.segment_mapping@),
        updated_at: p.updated_at,
    }
}

/// Resume state of the download of `source_url` into `output_path`.
#[derive(Debug)]
pub struct DownloadState {
    source_url: String,
    output_path: String,
    total_segments: usize,
    /// Without repetition; every index below `total_segments`.
    completed_segments: Vec<usize>,
    segment_mapping: Vec<(String, String)>,
    /// Seconds since the epoch.
    updated_at: i64,
}

impl View for DownloadState {
    type V = StateModel;

    closed spec fn view(&self) -> StateModel {
        StateModel {
            source_url: self.source_url@,
            output_path: self.output_path@,
            total_segments: self.total_segments as nat,
            completed: self.completed_segments@.to_set(),
            mapping: pairs_map(self.segment_mapping@),
            updated_at: self.updated_at,
        }
    }
}

/// The indices of a list are distinct and below `total`.
pub open spec fn valid_indices(indices: Seq<usize>, total: usize) -> bool {
    indices.no_duplicates() && forall|k: int| 0 <= k < indices.len() ==> indices[k] < total
}

/// Whether `index` is among `list`.
fn list_contains(list: &Vec<usize>, index: usize) -> (r: bool)
    ensures
        r == list@.contains(index),
        r == list@.to_set().contains(index),
{
    let mut k: usize = 0;
    while k < list.len()
        invariant
            k <= list.len(),
            forall|j: int| 0 <= j < k ==> list@[j] != index,
        decreases list.len() - k,
    {
        if list[k] == index {
            return true;
        }
        k = k + 1;
    }
    false
}

impl DownloadState {
    /// The invariant of a state: its completed indices are distinct and
    /// inside the download. Every state that this module hands out meets
    /// it.
    pub closed spec fn wf(&self) -> bool {
        valid_indices(self.completed_segments@, self.total_segments)
    }

    /// The completed indices, in the order in which they were marked.
    pub closed spec fn completed_order(&self) -> Seq<usize> {
        self.completed_segments@
    }

    /// A fresh state: nothing completed.
    pub fn new(
        source_url: String,
        output_path: String,
        total_segments: usize,
        segment_mapping: Vec<(String, String)>,
        now: i64,
    ) -> (s: DownloadState)
        ensures
            s@ == (StateModel {
                source_url: source_url@,
                output_path: output_path@,
                total_segments: total_segments as nat,
                completed: Set::empty(),
                mapping: pairs_map(segment_mapping@),
                updated_at: now,
            }),
            s.completed_order() == Seq::<usize>::empty(),
            s.wf(),
    {
        let completed_segments: Vec<usize> = Vec::new();
        assert(completed_segments@.to_set() == Set::<usize>::empty());
        DownloadState {
            source_url,
            output_path,
            total_segments,
            completed_segments,
            segment_mapping,
            updated_at: now,
        }
    }

    /// Rebuilds a state from stored parts. Parts that break the invariant
    /// of a state, a repeated index or one outside the download, are
    /// refused as corrupt.
    pub fn restore(
        source_url: String,
        output_path: String,
        total_segments: usize,
        completed_segments: Vec<usize>,
        segment_mapping: Vec<(String, String)>,
        updated_at: i64,
    ) -> (r: Result<DownloadState, StreamingError>)
        ensures
            valid_indices(completed_segments@, total_segments) ==> r is Ok && r->Ok_0@
                == (StateModel {
                source_url: source_url@,
                output_path: output_path@,
                total_segments: total_segments as nat,
                completed: completed_segments@.to_set(),
                mapping: pairs_map(segment_mapping@),
                updated_at,
            }) && r->Ok_0.completed_order() == completed_segments@ && r->Ok_0.wf(),
            !valid_indices(completed_segments@, total_segments) ==> r matches Err(
                StreamingError::StateCorruptionError(_),
            ),
    {
        let mut k: usize = 0;
        while k < completed_segments.len()
            invariant
                k <= completed_segments.len(),
                valid_indices(completed_segments@.take(k as int), total_segments),
            decreases completed_segments.len() - k,
        {
            let index = completed_segments[k];
            let mut seen = false;
            let mut j: usize = 0;
            while j < k
                invariant
                    j <= k < completed_segments.len(),
                    index == completed_segments@[k as int],
                    seen == exists|i: int| 0 <= i < j && completed_segments@[i] == index,
                decreases k - j,
            {
                if completed_segments[j] == index {
                    seen = true;
                }
                j = j + 1;
            }
            if seen || index >= total_segments {
                proof {
                    if seen {
                        let i = choose|i: int| 0 <= i < k && completed_segments@[i] == index;
                        assert(completed_segments@[i] == completed_segments@[k as int]);
                    }
                }
                return Err(
                    StreamingError::StateCorruptionError(
                        "the completed segments are not distinct indices of the download".to_owned(),
                    ),
                );
            }
            k = k + 1;
        }
        assert(completed_segments@.take(completed_segments.len() as int) == completed_segments@);
        Ok(
            DownloadState {
                source_url,
                output_path,
                total_segments,
                completed_segments,
                segment_mapping,
                updated_at,
            },
        )
    }

    /// Rebuilds a state from its stored form. Parts that break the
    /// invariant of a state are refused as corrupt.
    pub fn from_parts(parts: StateParts) -> (r: Result<DownloadState, StreamingError>)
        ensures
            valid_indices(parts.completed_segments@, parts.total_segments) ==> r is Ok && r->Ok_0@
                == parts_model(parts) && r->Ok_0.completed_order() == parts.completed_segments@
                && r->Ok_0.wf(),
            !valid_indices(parts.completed_segments@, parts.total_segments) ==> r matches Err(
                StreamingError::StateCorruptionError(_),
            ),
    {
        DownloadState::restore(
            parts.source_url,
            parts.output_path,
            parts.total_segments,
            parts.completed_segments,
            parts.segment_mapping,
            parts.updated_at,
        )
    }

    /// The stored form of the state. It says what the state says and can
    /// always be rebuilt.
    pub fn to_parts(&self) -> (parts: StateParts)
        requires
            self.wf(),
        ensures
            parts_model(parts) == self@,
            parts.completed_segments@ == self.completed_order(),
            valid_indices(parts.completed_segments@, parts.total_segments),
    {
        let mut completed: Vec<usize> = Vec::new();
        let mut i: usize = 0;
        while i < self.completed_segments.len()
            invariant
                i <= self.completed_segments.len(),
                completed@ == self.completed_segments@.take(i as int),
            decreases self.completed_segments.len() - i,
        {
            completed.push(self.completed_segments[i]);
            i = i + 1;
        }
        let mut mapping: Vec<(String, String)> = Vec::new();
        let mut k: usize = 0;
        while k < self.segment_mapping.len()
            invariant
                k <= self.segment_mapping.len(),
                mapping@ == self.segment_mapping@.take(k as int),
            decreases self.segment_mapping.len() - k,
        {
            let pair = &self.segment_mapping[k];
            mapping.push((pair.0.clone(), pair.1.clone()));
            k = k + 1;
        }
        assert(completed@ == self.completed_segments@);
        assert(mapping@ == self.segment_mapping@);
        StateParts {
            source_url: self.source_url.clone(),
            output_path: self.output_path.clone(),
            total_segments: self.total_segments,
            completed_segments: completed,
            segment_mapping: mapping,
            updated_at: self.updated_at,
        }
    }

    /// The state that is rebuilt from the stored form of this state: a
    /// state that says the same.
    pub fn reloaded(&self) -> (r: DownloadState)
        requires
            self.wf(),
        ensures
            r.wf(),
            r@ == self@,
            r.completed_order() == self.completed_order(),
    {
        match DownloadState::from_parts(self.to_parts()) {
            Ok(state) => state,
            Err(_) => vstd::pervasive::unreached(),
        }
    }

    /// The URL that the download reads from.
    pub fn source_url(&self) -> (r: &String)
        ensures
            r@ == self@.source_url,
    {
        &self.source_url
    }

    /// The path that the download writes to.
    pub fn output_path(&self) -> (r: &String)
        ensures
            r@ == self@.output_path,
    {
        &self.output_path
    }

    /// Number of segments of the download.
    pub fn total_segments(&self) -> (r: usize)
        ensures
            r == self@.total_segments,
    {
        self.total_segments
    }

    /// When the state last changed, in seconds since the epoch.
    pub fn updated_at(&self) -> (r: i64)
        ensures
            r == self@.updated_at,
    {
        self.updated_at
    }

    /// The completed indices, in the order in which they were marked.
    pub fn completed_segments(&self) -> (r: &Vec<usize>)
        requires
            self.wf(),
        ensures
            r@ == self.completed_order(),
            r@.to_set() == self@.completed,
            valid_indices(r@, self@.total_segments as usize),
    {
        &self.completed_segments
    }

    /// The `(url, path)` pairs of the segment mapping.
    pub fn segment_mapping(&self) -> (r: &Vec<(String, String)>)
        ensures
            pairs_map(r@) == self@.mapping,
    {
        &self.segment_mapping
    }

    /// Whether the state belongs to the download of `source_url` into
    /// `output_path`. A state that does not is stale and must be discarded.
    pub fn matches_request(&self, source_url: &str, output_path: &str) -> (r: bool)
        ensures
            r == (self@.source_url == source_url@ && self@.output_path == output_path@),
    {
        let a = to_chars(self.source_url.as_str());
        let b = to_chars(source_url);
        let c = to_chars(self.output_path.as_str());
        let d = to_chars(output_path);
        crate::text::same_text(&a, &b) && crate::text::same_text(&c, &d)
    }

    /// Whether segment `index` is completed.
    pub fn is_segment_completed(&self, index: usize) -> (r: bool)
        requires
            self.wf(),
        ensures
            r == self@.completed.contains(index),
            r ==> index < self@.total_segments,
    {
        list_contains(&self.completed_segments, index)
    }

    /// Marks segment `index` as completed at time `now` and says whether
    /// the state changed. An index outside the download, or one that is
    /// already marked, changes nothing.
    pub fn mark_segment_completed(&mut self, index: usize, now: i64) -> (changed: bool)
        requires
            old(self).wf(),
        ensures
            final(self).wf(),
            final(self)@ == marked(old(self)@, index, now),
            changed == (index < old(self)@.total_segments && !old(self)@.completed.contains(index)),
            changed ==> final(self).completed_order() == old(self).completed_order().push(index),
            !changed ==> final(self).completed_order() == old(self).completed_order(),
    {
        if index >= self.total_segments || list_contains(&self.completed_segments, index) {
            return false;
        }
        let ghost before = self.completed_segments@;
        self.completed_segments.push(index);
        self.updated_at = now;
        proof {
            lemma_push_to_set(before, index);
        }
        true
    }

    /// How many segments are completed.
    pub fn completed_count(&self) -> (n: usize)
        requires
            self.wf(),
        ensures
            n == self@.completed.len(),
            n <= self@.total_segments,
    {
        proof {
            self.completed_segments@.unique_seq_to_set();
            lemma_distinct_below(self.completed_segments@, self.total_segments);
        }
        self.completed_segments.len()
    }

    /// The progress of the download as `(completed, total)`.
    pub fn progress(&self) -> (p: (usize, usize))
        requires
            self.wf(),
        ensures
            p.0 == self@.completed.len(),
            p.1 == self@.total_segments,
            p.0 <= p.1,
    {
        (self.completed_count(), self.total_segments)
    }

    /// Whether every segment is completed.
    pub fn is_complete(&self) -> (r: bool)
        requires
            self.wf(),
        ensures
            r == (self@.completed.len() == self@.total_segments),
    {
        self.completed_count() == self.total_segments
    }

    /// The segments that are still to fetch: every index of the download
    /// that is not completed, in ascending order.
    pub fn pending_segments(&self) -> (r: Vec<usize>)
        requires
            self.wf(),
        ensures
            forall|k: int| 0 <= k < r.len() ==> r@[k] < self@.total_segments
                && !self@.completed.contains(#[trigger] r@[k]),
            forall|j: int, k: int| 0 <= j < k < r.len() ==> r@[j] < r@[k],
            forall|i: usize|
                i < self@.total_segments && !self@.completed.contains(i) ==> r@.contains(i),
    {
        let mut pending: Vec<usize> = Vec::new();
        let mut i: usize = 0;
        while i < self.total_segments
            invariant
                self.wf(),
                i <= self.total_segments,
                forall|k: int| 0 <= k < pending.len() ==> pending@[k] < i
                    && !self@.completed.contains(#[trigger] pending@[k]),
                forall|j: int, k: int| 0 <= j < k < pending.len() ==> pending@[j] < pending@[k],
                forall|x: usize| x < i && !self@.completed.contains(x) ==> pending@.contains(x),
            decreases self.total_segments - i,
        {
            if !self.is_segment_completed(i) {
                let ghost before = pending@;
                pending.push(i);
                assert forall|x: usize|
                    x < i + 1 && !self@.completed.contains(x) implies pending@.contains(x) by {
                    if x < i {
                        assert(before.contains(x));
                        let k = choose|k: int| 0 <= k < before.len() && before[k] == x;
                        assert(pending@[k] == x);
                    } else {
                        assert(pending@[pending.len() - 1] == x);
                    }
                }
            }
            i = i + 1;
        }
        pending
    }

    /// Adds `url -> path` to the segment mapping; an earlier entry for the
    /// URL is overridden.
    pub fn map_segment(&mut self, url: String, path: String)
        requires
            old(self).wf(),
        ensures
            final(self).wf(),
            final(self)@ == (StateModel {
                mapping: old(self)@.mapping.insert(url@, path@),
                ..old(self)@
            }),
            final(self).completed_order() == old(self).completed_order(),
    {
        let ghost before = self.segment_mapping@;
        self.segment_mapping.push((url, path));
        proof {
            assert(self.segment_mapping@.drop_last() == before);
        }
    }
}

/// Whether a stored state can be trusted for the download of `source_url`
/// into `output_path` in `total_segments` segments: it was made for that
/// very download.
pub open spec fn fits_request(
    state: StateModel,
    source_url: Seq<char>,
    output_path: Seq<char>,
    total_segments: usize,
) -> bool {
    &&& state.source_url == source_url
    &&& state.output_path == output_path
    &&& state.total_segments == total_segments
}

/// The state with which a download starts: the stored one where there is
/// one that fits the request, else a fresh one. A stored state that does
/// not fit is stale; it is discarded whole, never merged.
pub fn resume_or_fresh(
    stored: Option<DownloadState>,
    source_url: &str,
    output_path: &str,
    total_segments: usize,
    now: i64,
) -> (s: DownloadState)
    requires
        stored matches Some(old_state) ==> old_state.wf(),
    ensures
        s.wf(),
        stored is Some && fits_request(stored->0@, source_url@, output_path@, total_segments)
            ==> s == stored->0,
        !(stored is Some && fits_request(stored->0@, source_url@, output_path@, total_segments))
            ==> s@ == (StateModel {
            source_url: source_url@,
            output_path: output_path@,
            total_segments: total_segments as nat,
            completed: Set::empty(),
            mapping: Map::empty(),
            updated_at: now,
        }),
{
    match stored {
        Some(state) => {
            if state.matches_request(source_url, output_path) && state.total_segments()
                == total_segments {
                return state;
            }
        },
        None => {},
    }
    DownloadState::new(
        source_url.to_owned(),
        output_path.to_owned(),
        total_segments,
        Vec::new(),
        now,
    )
}

/// The set of a list with one more element has that element more.
proof fn lemma_push_to_set(list: Seq<usize>, index: usize)
    ensures
        list.push(index).to_set() == list.to_set().insert(index),
{
    let grown = list.push(index);
    assert forall|x: usize| grown.to_set().contains(x) <==> list.to_set().insert(index).contains(
        x,
    ) by {
        if grown.contains(x) {
            let k = choose|k: int| 0 <= k < grown.len() && grown[k] == x;
            assert(k < list.len() ==> list[k] == x);
        }
        if list.contains(x) {
            let k = choose|k: int| 0 <= k < list.len() && list[k] == x;
            assert(grown[k] == x);
        }
        if x == index {
            assert(grown[list.len() as int] == x);
        }
    }
}

/// Distinct indices below `total` are at most `total` many.
proof fn lemma_distinct_below(indices: Seq<usize>, total: usize)
    requires
        valid_indices(indices, total),
    ensures
        indices.len() <= total,
{
    let below = Set::new(|i: usize| i < total);
    let all = indices.to_set();
    indices.unique_seq_to_set();
    lemma_below_len(total);
    vstd::set_lib::lemma_len_subset(all, below);
}

/// There are `total` indices below `total`.
proof fn lemma_below_len(total: usize)
    ensures
        Set::new(|i: usize| i < total).finite(),
        Set::new(|i: usize| i < total).len() == total,
    decreases total,
{
    let below = Set::new(|i: usize| i < total);
    if total == 0 {
        assert(below =~= Set::<usize>::empty());
    } else {
        let fewer = (total - 1) as usize;
        lemma_below_len(fewer);
        assert(below =~= Set::new(|i: usize| i < fewer).insert(fewer));
    }
}

/// Where the state of the download into `output_path` is kept: the output
/// path with the extension of its file name replaced by `json`. The file
/// name is what follows the last `/`; its extension starts at its last
/// `.`, unless that is its first character.
pub open spec fn state_path_of(output_path: Seq<char>) -> Seq<char> {
    let name_start: int = match last_index_of(output_path, '/') {
        Some(i) => i + 1,
        None => 0,
    };
    let stem_end: int = match last_index_of(output_path, '.') {
        Some(d) => if d > name_start {
            d
        } else {
            output_path.len() as int
        },
        None => output_path.len() as int,
    };
    output_path.take(stem_end) + ".json"@
}

/// The path of the state file of the download into `output_path`.
pub fn get_state_file_path(output_path: &str) -> (r: String)
    ensures
        r@ == state_path_of(output_path@),
{
    let chars = to_chars(output_path);
    let name_start: usize = match rfind(&chars, '/') {
        Some(i) => {
            proof {
                crate::text::lemma_last_index_of(chars@, '/');
            }
            assert(i < chars.len());
            i + 1
        },
        None => 0,
    };
    let stem_end: usize = match rfind(&chars, '.') {
        Some(d) => {
            proof {
                crate::text::lemma_last_index_of(chars@, '.');
            }
            if d > name_start {
                d
            } else {
                chars.len()
            }
        },
        None => chars.len(),
    };
    let mut out: Vec<char> = Vec::new();
    let mut i: usize = 0;
    while i < stem_end
        invariant
            i <= stem_end <= chars.len(),
            out@ == chars@.take(i as int),
        decreases stem_end - i,
    {
        out.push(chars[i]);
        i = i + 1;
    }
    push_str(&mut out, ".json");
    from_chars(&out)
}

} // verus!
