//! The phases of one orchestration run and the decisions between them.
//!
//! The orchestrator decides; its caller fetches, stores and merges, and
//! reports what happened.

use vstd::prelude::*;
use crate::common::{StreamSegment, StreamingError, StreamingOptions};
use crate::fetch::RunStatus;
use crate::hls::{HlsManifest, HlsVariant};
use crate::quality::{best_variant, best_variant_index};
use crate::text::{same_text, to_chars};

verus! {

/// Phase of a run.
#[derive(Debug, Clone, Copy, PartialEq, Eq, Structural)]
pub enum Phase {
    Idle,
    ManifestFetched,
    RenditionSelected,
    Downloading,
    Merging,
    Completed,
    Failed,
    Cancelled,
}

/// What the caller reports.
#[derive(Debug, Clone, Copy, PartialEq, Eq, Structural)]
pub enum Event {
    /// The manifest was fetched and parsed.
    ManifestParsed,
    /// The renditions to download were selected.
    RenditionChosen,
    /// The first segments were handed to the fetcher.
    FetchStarted,
    /// Every segment is on disk.
    SegmentsFetched,
    /// The muxer produced the output file.
    Merged,
    /// A fatal error occurred.
    Fatal,
    /// The user cancelled the run.
    Cancel,
}

/// How far a phase is along a run. The three terminal phases share the
/// last place.
pub open spec fn rank(p: Phase) -> nat {
    match p {
        Phase::Idle => 0,
        Phase::ManifestFetched => 1,
        Phase::RenditionSelected => 2,
        Phase::Downloading => 3,
        Phase::Merging => 4,
        Phase::Completed => 5,
        Phase::Failed => 5,
        Phase::Cancelled => 5,
    }
}

/// A phase that no event leaves.
pub open spec fn terminal(p: Phase) -> bool {
    p is Completed || p is Failed || p is Cancelled
}

/// The phase that follows `p` on `e`. Each step of the work leads to the
/// next phase; a fatal error fails every run that is not over; a
/// cancellation ends a run that is downloading or merging. Any other event
/// leaves the phase as it is.
pub open spec fn next_phase(p: Phase, e: Event) -> Phase {
    match (p, e) {
        (Phase::Idle, Event::ManifestParsed) => Phase::ManifestFetched,
        (Phase::ManifestFetched, Event::RenditionChosen) => Phase::RenditionSelected,
        (Phase::RenditionSelected, Event::FetchStarted) => Phase::Downloading,
        (Phase::Downloading, Event::SegmentsFetched) => Phase::Merging,
        (Phase::Merging, Event::Merged) => Phase::Completed,
        (Phase::Downloading, Event::Cancel) => Phase::Cancelled,
        (Phase::Merging, Event::Cancel) => Phase::Cancelled,
        (_, Event::Fatal) => if terminal(p) {
            p
        } else {
            Phase::Failed
        },
        _ => p,
    }
}

/// Transitions are strictly forward: an event leaves the phase as it is or
/// leads to a later one.
pub proof fn lemma_forward(p: Phase, e: Event)
    ensures
        next_phase(p, e) == p || rank(next_phase(p, e)) > rank(p),
{
}

/// No event leaves a terminal phase.
pub proof fn lemma_terminal_absorbs(p: Phase, e: Event)
    requires
        terminal(p),
    ensures
        next_phase(p, e) == p,
{
}

/// A run is cancelled only while it downloads or merges, and completes
/// only by a merge.
pub proof fn lemma_ways_to_end(p: Phase, e: Event)
    requires
        !terminal(p),
    ensures
        next_phase(p, e) is Cancelled ==> (p is Downloading || p is Merging) && e is Cancel,
        next_phase(p, e) is Completed ==> p is Merging && e is Merged,
        next_phase(p, e) is Failed <==> e is Fatal,
{
}

/// The resume state of a run is deleted only once the run is completed; a
/// failed or cancelled run keeps it and can be resumed.
pub open spec fn state_entry_kept(p: Phase) -> bool {
    !(p is Completed)
}

/// The segment files of a run are removed only once the run is completed
/// and the options ask for it.
pub open spec fn cleanup_due(p: Phase, o: StreamingOptions) -> bool {
    p is Completed && o.cleanup_temp_files
}

/// One orchestration run: its phase and the last progress it saw.
#[derive(Debug)]
pub struct Orchestrator {
    phase: Phase,
    completed: usize,
    total: usize,
    error: Option<StreamingError>,
}

impl Orchestrator {
    /// The phase of the run.
    pub closed spec fn phase_of(&self) -> Phase {
        self.phase
    }

    /// The last progress snapshot as `(completed, total)`.
    pub closed spec fn snapshot(&self) -> (usize, usize) {
        (self.completed, self.total)
    }

    /// The error that failed the run, if one did.
    pub closed spec fn failure(&self) -> Option<StreamingError> {
        self.error
    }

    /// A run that has not started.
    pub fn new() -> (o: Orchestrator)
        ensures
            o.phase_of() is Idle,
            o.snapshot() == (0usize, 0usize),
            o.failure() is None,
    {
        Orchestrator { phase: Phase::Idle, completed: 0, total: 0, error: None }
    }

    /// The phase of the run.
    pub fn phase(&self) -> (p: Phase)
        ensures
            p == self.phase_of(),
    {
        self.phase
    }

    /// The last progress snapshot as `(completed, total)`.
    pub fn progress(&self) -> (p: (usize, usize))
        ensures
            p == self.snapshot(),
    {
        (self.completed, self.total)
    }

    /// Whether the run is over.
    pub fn is_finished(&self) -> (r: bool)
        ensures
            r == terminal(self.phase_of()),
    {
        match self.phase {
            Phase::Completed | Phase::Failed | Phase::Cancelled => true,
            _ => false,
        }
    }

    /// Takes an event and moves to the phase that follows. The progress
    /// snapshot and the recorded error stay.
    pub fn handle(&mut self, event: Event) -> (p: Phase)
        ensures
            p == next_phase(old(self).phase_of(), event),
            final(self).phase_of() == p,
            final(self).snapshot() == old(self).snapshot(),
            final(self).failure() == old(self).failure(),
    {
        let next = match (self.phase, event) {
            (Phase::Idle, Event::ManifestParsed) => Phase::ManifestFetched,
            (Phase::ManifestFetched, Event::RenditionChosen) => Phase::RenditionSelected,
            (Phase::RenditionSelected, Event::FetchStarted) => Phase::Downloading,
            (Phase::Downloading, Event::SegmentsFetched) => Phase::Merging,
            (Phase::Merging, Event::Merged) => Phase::Completed,
            (Phase::Downloading, Event::Cancel) => Phase::Cancelled,
            (Phase::Merging, Event::Cancel) => Phase::Cancelled,
            (Phase::Completed, Event::Fatal) => Phase::Completed,
            (Phase::Failed, Event::Fatal) => Phase::Failed,
            (Phase::Cancelled, Event::Fatal) => Phase::Cancelled,
            (_, Event::Fatal) => Phase::Failed,
            (p, _) => p,
        };
        self.phase = next;
        next
    }

    /// Fails the run with `error`. A run that is over stays as it is, so
    /// that a run ends with one error at most: the first that was fatal.
    pub fn fail(&mut self, error: StreamingError) -> (p: Phase)
        ensures
            p == next_phase(old(self).phase_of(), Event::Fatal),
            final(self).phase_of() == p,
            final(self).snapshot() == old(self).snapshot(),
            final(self).failure() == if terminal(old(self).phase_of()) {
                old(self).failure()
            } else {
                Some(error)
            },
    {
        if !self.is_finished() {
            self.error = Some(error);
        }
        self.handle(Event::Fatal)
    }

    /// The error that failed the run, if one did.
    pub fn terminal_error(&self) -> (e: &Option<StreamingError>)
        ensures
            *e == self.failure(),
    {
        &self.error
    }

    /// Hands out the error that failed the run, for the caller to report
    /// it. The run keeps its phase and its progress.
    pub fn take_error(&mut self) -> (e: Option<StreamingError>)
        ensures
            e == old(self).failure(),
            final(self).failure() is None,
            final(self).phase_of() == old(self).phase_of(),
            final(self).snapshot() == old(self).snapshot(),
    {
        self.error.take()
    }

    /// Records the progress of the fetch. It counts only while the run
    /// downloads, and only where it is a count of the run's segments.
    pub fn record_progress(&mut self, completed: usize, total: usize) -> (accepted: bool)
        ensures
            accepted == (old(self).phase_of() is Downloading && completed <= total),
            final(self).phase_of() == old(self).phase_of(),
            final(self).failure() == old(self).failure(),
            final(self).snapshot() == if accepted {
                (completed, total)
            } else {
                old(self).snapshot()
            },
    {
        if self.phase == Phase::Downloading && completed <= total {
            self.completed = completed;
            self.total = total;
            true
        } else {
            false
        }
    }

    /// Takes the end of the fetch: success leads on to merging, a failure
    /// fails the run, a cancellation cancels it. A fetch that still runs
    /// changes nothing.
    pub fn fetch_ended(&mut self, status: RunStatus) -> (p: Phase)
        ensures
            p == final(self).phase_of(),
            final(self).snapshot() == old(self).snapshot(),
            final(self).failure() == old(self).failure(),
            p == match status {
                RunStatus::Running => old(self).phase_of(),
                RunStatus::Succeeded => next_phase(old(self).phase_of(), Event::SegmentsFetched),
                RunStatus::Failed => next_phase(old(self).phase_of(), Event::Fatal),
                RunStatus::Cancelled => next_phase(old(self).phase_of(), Event::Cancel),
            },
    {
        match status {
            RunStatus::Running => self.phase,
            RunStatus::Succeeded => self.handle(Event::SegmentsFetched),
            RunStatus::Failed => self.handle(Event::Fatal),
            RunStatus::Cancelled => self.handle(Event::Cancel),
        }
    }

    /// Whether the resume state of the run must stay on disk.
    pub fn keeps_state_entry(&self) -> (r: bool)
        ensures
            r == state_entry_kept(self.phase_of()),
    {
        self.phase != Phase::Completed
    }

    /// Whether the segment files of the run are to be removed now.
    pub fn cleans_up(&self, options: &StreamingOptions) -> (r: bool)
        ensures
            r == cleanup_due(self.phase_of(), *options),
    {
        self.phase == Phase::Completed && options.cleanup_temp_files
    }
}

/// What to do with a parsed HLS playlist.
#[derive(Debug)]
pub enum HlsStep {
    /// Fetch and parse the media playlist of the chosen variant.
    Follow(HlsVariant),
    /// Fetch these segments, in this order.
    Fetch(Vec<StreamSegment>),
}

/// `step` is what follows the playlist `manifest`: the segments of a media
/// playlist are fetched as they stand; of a master playlist the best
/// variant is followed; a master playlist without variants is an error.
pub open spec fn step_of(
    manifest: HlsManifest,
    o: StreamingOptions,
    step: Result<HlsStep, StreamingError>,
) -> bool {
    match manifest {
        HlsManifest::Media(media) => step matches Ok(HlsStep::Fetch(segments)) && segments@
            == media.segments@,
        HlsManifest::Master(master) => if master.variants.len() == 0 {
            step matches Err(StreamingError::ManifestParseError(_))
        } else {
            step matches Ok(HlsStep::Follow(v)) && exists|i: int|
                0 <= i < master.variants.len() && best_variant(master.variants@, o, i) && v
                    == master.variants@[i]
        },
    }
}

/// Decides what follows a parsed HLS playlist.
pub fn plan_hls(manifest: HlsManifest, options: &StreamingOptions) -> (step: Result<
    HlsStep,
    StreamingError,
>)
    ensures
        step_of(manifest, *options, step),
{
    match manifest {
        HlsManifest::Media(media) => Ok(HlsStep::Fetch(media.segments)),
        HlsManifest::Master(master) => {
            match best_variant_index(&master.variants, options) {
                Some(i) => Ok(HlsStep::Follow(master.variants[i].duplicate())),
                None => Err(
                    StreamingError::ManifestParseError(
                        "the master playlist has no variants".to_owned(),
                    ),
                ),
            }
        },
    }
}

/// Most playlists that are followed in a row.
pub const MAX_REDIRECTS: usize = 10;

/// Whether the playlist at `url` may be followed after those at `visited`:
/// it was not visited before, and fewer than the limit were.
pub open spec fn may_follow(visited: Seq<String>, url: Seq<char>) -> bool {
    visited.len() < MAX_REDIRECTS && forall|i: int|
        0 <= i < visited.len() ==> (#[trigger] visited[i])@ != url
}

/// Checks that following the playlist at `url` neither closes a cycle nor
/// passes the limit of redirects, and notes the URL as visited.
pub fn follow_playlist(visited: &mut Vec<String>, url: &str) -> (r: Result<(), StreamingError>)
    ensures
        may_follow(old(visited)@, url@) ==> r is Ok && final(visited)@.len() == old(visited)@.len()
            + 1 && final(visited)@.drop_last() == old(visited)@ && final(visited)@.last()@
            == url@,
        !may_follow(old(visited)@, url@) ==> (r matches Err(
            StreamingError::ManifestParseError(_),
        )) && final(visited)@ == old(visited)@,
{
    if visited.len() >= MAX_REDIRECTS {
        return Err(StreamingError::ManifestParseError("too many playlist redirects".to_owned()));
    }
    let target = to_chars(url);
    let mut i: usize = 0;
    while i < visited.len()
        invariant
            i <= visited.len(),
            visited@ == old(visited)@,
            target@ == url@,
            forall|k: int| 0 <= k < i ==> (#[trigger] visited@[k])@ != url@,
        decreases visited.len() - i,
    {
        let seen = to_chars(visited[i].as_str());
        if same_text(&seen, &target) {
            return Err(
                StreamingError::ManifestParseError("the playlists refer to each other".to_owned()),
            );
        }
        i = i + 1;
    }
    visited.push(url.to_owned());
    Ok(())
}

/// How the downloaded tracks become the output file.
#[derive(Debug, Clone, Copy, PartialEq, Eq, Structural)]
pub enum MergePlan {
    /// Mux the video and the audio track.
    MuxBoth,
    /// The video track is the output.
    VideoOnly,
    /// The audio track is the output.
    AudioOnly,
}

/// What becomes of the selected tracks. Both tracks are muxed, which needs
/// the muxer; one track alone is the output as it is, the video track
/// where the options rule out the other. Nothing can be made of no track,
/// nor of two tracks without a muxer.
pub open spec fn merge_plan_of(
    has_video: bool,
    has_audio: bool,
    o: StreamingOptions,
    muxer_available: bool,
) -> Option<MergePlan> {
    if has_video && has_audio && !o.video_only && !o.audio_only {
        if muxer_available {
            Some(MergePlan::MuxBoth)
        } else {
            None
        }
    } else if has_video {
        Some(MergePlan::VideoOnly)
    } else if has_audio {
        Some(MergePlan::AudioOnly)
    } else {
        None
    }
}

/// Decides how the selected tracks become the output file. Two tracks
/// without a muxer are a merge error; no track is no suitable rendition.
pub fn plan_merge(
    has_video: bool,
    has_audio: bool,
    options: &StreamingOptions,
    muxer_available: bool,
) -> (r: Result<MergePlan, StreamingError>)
    ensures
        match merge_plan_of(has_video, has_audio, *options, muxer_available) {
            Some(p) => r == Ok::<MergePlan, StreamingError>(p),
            None => if has_video {
                r matches Err(StreamingError::MergeError(_))
            } else {
                r matches Err(StreamingError::NoSuitableRendition)
            },
        },
{
    if has_video && has_audio && !options.video_only && !options.audio_only {
        if muxer_available {
            Ok(MergePlan::MuxBoth)
        } else {
            Err(StreamingError::MergeError("muxing video and audio needs FFmpeg".to_owned()))
        }
    } else if has_video {
        Ok(MergePlan::VideoOnly)
    } else if has_audio {
        Ok(MergePlan::AudioOnly)
    } else {
        Err(StreamingError::NoSuitableRendition)
    }
}

/// How the end of the muxer counts: it succeeded where it left with
/// status zero and wrote nothing to its error stream.
pub fn merge_succeeded(exit_code: i32, stderr_empty: bool) -> (r: bool)
    ensures
        r == (exit_code == 0 && stderr_empty),
{
    exit_code == 0 && stderr_empty
}

} // verus!
