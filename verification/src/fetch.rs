//! The fetch scheduler: which segment is requested next, what follows each
//! answer, and in which order the results are handed on.
//!
//! The scheduler decides; its caller performs the requests and reports
//! every answer. A segment occupies one place of the pool from its first
//! request until it is stored or given up, retries included.

use vstd::prelude::*;
use crate::common::{StreamSegment, StreamingError};
use crate::state::DownloadState;
use crate::text::{decimal, decimal_padded, decimal_text, from_chars, push_all, push_str, zero_padded};

verus! {

/// Where a segment stands in a run.
#[derive(Debug, Clone, Copy, PartialEq, Eq, Structural)]
pub enum SlotStatus {
    /// Waiting for a place in the pool.
    Pending,
    /// Holding a place in the pool.
    InFlight,
    /// Fetched and stored.
    Done,
    /// Given up.
    Failed,
    /// Completed by an earlier run; never requested.
    Skipped,
}

/// The scheduler's record of one segment.
#[derive(Debug, Clone, Copy, PartialEq, Eq, Structural)]
pub struct Slot {
    pub status: SlotStatus,
    /// Failed attempts so far, the refused range not counted.
    pub failures: u32,
    /// The partial file was deleted after a refused range.
    pub restarted: bool,
}

/// How one request ended.
#[derive(Debug, Clone, Copy, PartialEq, Eq, Structural)]
pub enum FetchOutcome {
    /// The body arrived.
    Success,
    /// Status 416: the server refused the resume range.
    RangeNotSatisfiable,
    /// Any other status, a network error or a timeout.
    Failure,
}

/// What the caller does after it reported an answer.
#[derive(Debug, Clone, Copy, PartialEq, Eq, Structural)]
pub enum FetchAction {
    /// Store the body, mark the segment completed and persist the state.
    Store,
    /// Wait `delay_ms` milliseconds and request the segment again.
    Retry { delay_ms: u64 },
    /// Delete the partial file and request the segment again from the
    /// start.
    Restart,
    /// The segment has failed for good.
    GiveUp,
    /// The segment was not in flight; nothing to do.
    Ignore,
}

/// How a run stands.
#[derive(Debug, Clone, Copy, PartialEq, Eq, Structural)]
pub enum RunStatus {
    /// Requests are in flight or can be started.
    Running,
    /// Every segment is stored.
    Succeeded,
    /// Nothing is left to do and some segment failed.
    Failed,
    /// Cancelled with segments left unrequested.
    Cancelled,
}

/// `base` doubled `times` times.
pub open spec fn doubled(base: nat, times: nat) -> nat
    decreases times,
{
    if times == 0 {
        base
    } else {
        2 * doubled(base, (times - 1) as nat)
    }
}

/// Milliseconds to wait before the retry that follows the `failures`-th
/// failed attempt: half a second, doubled with every failure, and no more
/// than fits 64 bits.
pub open spec fn backoff_ms(failures: nat) -> nat {
    if doubled(500, failures) > u64::MAX {
        u64::MAX as nat
    } else {
        doubled(500, failures)
    }
}

/// The backoff grows with every failure.
pub proof fn lemma_backoff_grows(failures: nat)
    ensures
        backoff_ms(failures) <= backoff_ms(failures + 1),
        backoff_ms(failures) >= 500,
    decreases failures,
{
    if failures > 0 {
        lemma_backoff_grows((failures - 1) as nat);
    }
}

/// Milliseconds to wait before the retry that follows the `failures`-th
/// failed attempt.
pub fn backoff_delay_ms(failures: u32) -> (d: u64)
    ensures
        d == backoff_ms(failures as nat),
{
    let mut delay: u64 = 500;
    let mut k: u32 = 0;
    while k < failures
        invariant
            k <= failures,
            delay == backoff_ms(k as nat),
            delay >= 500,
        decreases failures - k,
    {
        if delay > u64::MAX / 2 {
            delay = u64::MAX;
        } else {
            delay = delay * 2;
        }
        k = k + 1;
    }
    delay
}

/// What an answer makes of a segment in flight, with `retry_count` retries
/// allowed. Success stores it. A refused range restarts it once; after the
/// restart every answer is final. A failure is retried with backoff until
/// the retries are used up.
pub open spec fn settled(slot: Slot, outcome: FetchOutcome, retry_count: u32) -> (Slot, FetchAction) {
    match outcome {
        FetchOutcome::Success => (Slot { status: SlotStatus::Done, ..slot }, FetchAction::Store),
        FetchOutcome::RangeNotSatisfiable => if slot.restarted {
            (Slot { status: SlotStatus::Failed, ..slot }, FetchAction::GiveUp)
        } else {
            (Slot { restarted: true, ..slot }, FetchAction::Restart)
        },
        FetchOutcome::Failure => if slot.restarted || slot.failures >= retry_count {
            (Slot { status: SlotStatus::Failed, ..slot }, FetchAction::GiveUp)
        } else {
            (
                Slot { failures: (slot.failures + 1) as u32, ..slot },
                FetchAction::Retry { delay_ms: backoff_ms((slot.failures + 1) as nat) as u64 },
            )
        },
    }
}

/// A refused range deletes the partial file once: the second refusal, and
/// every failure after the restart, gives the segment up.
pub proof fn lemma_one_restart(slot: Slot, first: FetchOutcome, retry_count: u32)
    requires
        settled(slot, FetchOutcome::RangeNotSatisfiable, retry_count).1 is Restart,
    ensures
        !(settled(
            settled(slot, FetchOutcome::RangeNotSatisfiable, retry_count).0,
            first,
            retry_count,
        ).1 is Restart),
        !(settled(
            settled(slot, FetchOutcome::RangeNotSatisfiable, retry_count).0,
            first,
            retry_count,
        ).1 is Retry),
{
}

/// An answer never sends a segment back to wait for a place: it keeps its
/// place, is stored or is given up. So no segment is dispatched twice in
/// one run.
pub proof fn lemma_never_pending_again(slot: Slot, outcome: FetchOutcome, retry_count: u32)
    requires
        slot.status is InFlight,
    ensures
        !(settled(slot, outcome, retry_count).0.status is Pending),
        !(settled(slot, outcome, retry_count).0.status is Skipped),
        settled(slot, outcome, retry_count).0.status is InFlight <==> (settled(
            slot,
            outcome,
            retry_count,
        ).1 is Retry || settled(slot, outcome, retry_count).1 is Restart),
{
}

/// A segment is requested at most `retry_count + 1` times for ordinary
/// failures: each retry raises the count of failures, which never passes
/// `retry_count`.
pub proof fn lemma_retries_bounded(slot: Slot, outcome: FetchOutcome, retry_count: u32)
    requires
        slot.failures <= retry_count,
    ensures
        settled(slot, outcome, retry_count).0.failures <= retry_count,
        settled(slot, outcome, retry_count).1 is Retry ==> settled(
            slot,
            outcome,
            retry_count,
        ).0.failures == slot.failures + 1,
{
}

/// How many of `slots` have the given status.
pub open spec fn count_status(slots: Seq<Slot>, status: SlotStatus) -> nat
    decreases slots.len(),
{
    if slots.len() == 0 {
        0
    } else {
        count_status(slots.drop_last(), status) + if slots.last().status == status {
            1nat
        } else {
            0nat
        }
    }
}

/// Replacing one slot changes a count by what the old slot took from it and
/// the new one adds to it.
pub proof fn lemma_count_update(slots: Seq<Slot>, i: int, slot: Slot, status: SlotStatus)
    requires
        0 <= i < slots.len(),
    ensures
        count_status(slots.update(i, slot), status) + (if slots[i].status == status {
            1nat
        } else {
            0nat
        }) == count_status(slots, status) + (if slot.status == status {
            1nat
        } else {
            0nat
        }),
    decreases slots.len(),
{
    let updated = slots.update(i, slot);
    if i == slots.len() - 1 {
        assert(updated.drop_last() == slots.drop_last());
    } else {
        assert(updated.drop_last() == slots.drop_last().update(i, slot));
        lemma_count_update(slots.drop_last(), i, slot, status);
    }
}

/// A count is zero exactly where no slot has the status, and never more
/// than there are slots.
pub proof fn lemma_count_zero(slots: Seq<Slot>, status: SlotStatus)
    ensures
        count_status(slots, status) <= slots.len(),
        count_status(slots, status) == 0 <==> forall|i: int|
            0 <= i < slots.len() ==> (#[trigger] slots[i]).status != status,
    decreases slots.len(),
{
    if slots.len() > 0 {
        let init = slots.drop_last();
        lemma_count_zero(init, status);
        if count_status(slots, status) == 0 {
            assert forall|i: int| 0 <= i < slots.len() implies (#[trigger] slots[i]).status
                != status by {
                if i < init.len() {
                    assert(init[i] == slots[i]);
                }
            }
        } else if slots.last().status != status {
            let i = choose|i: int| 0 <= i < init.len() && (#[trigger] init[i]).status == status;
            assert(slots[i].status == status);
        }
    }
}

/// What a scheduler knows, as mathematics.
pub struct SchedulerModel {
    pub slots: Seq<Slot>,
    pub width: nat,
    pub retry_count: u32,
    pub cancelled: bool,
}

/// `i` is the first pending segment.
pub open spec fn first_pending(slots: Seq<Slot>, i: int) -> bool {
    &&& 0 <= i < slots.len()
    &&& slots[i].status is Pending
    &&& forall|j: int| 0 <= j < i ==> !((#[trigger] slots[j]).status is Pending)
}

/// A request may be started: the run is not cancelled and the pool has a
/// free place.
pub open spec fn pool_open(m: SchedulerModel) -> bool {
    !m.cancelled && count_status(m.slots, SlotStatus::InFlight) < m.width
}

/// How the run stands.
pub open spec fn run_status(m: SchedulerModel) -> RunStatus {
    if count_status(m.slots, SlotStatus::InFlight) > 0 {
        RunStatus::Running
    } else if count_status(m.slots, SlotStatus::Pending) > 0 {
        if m.cancelled {
            RunStatus::Cancelled
        } else {
            RunStatus::Running
        }
    } else if count_status(m.slots, SlotStatus::Failed) > 0 {
        RunStatus::Failed
    } else {
        RunStatus::Succeeded
    }
}

/// Decides which segments of one run are requested, and when.
#[derive(Debug)]
pub struct FetchScheduler {
    slots: Vec<Slot>,
    width: usize,
    retry_count: u32,
    in_flight: usize,
    cancelled: bool,
}

impl View for FetchScheduler {
    type V = SchedulerModel;

    closed spec fn view(&self) -> SchedulerModel {
        SchedulerModel {
            slots: self.slots@,
            width: self.width as nat,
            retry_count: self.retry_count,
            cancelled: self.cancelled,
        }
    }
}

/// The slot of a segment at the start of a run: skipped where it is
/// already complete, else pending.
pub open spec fn initial_slot(complete: bool) -> Slot {
    Slot {
        status: if complete {
            SlotStatus::Skipped
        } else {
            SlotStatus::Pending
        },
        failures: 0,
        restarted: false,
    }
}

impl FetchScheduler {
    /// The invariant of a scheduler: the pool is at least one place wide
    /// and never holds more segments than it has places.
    pub closed spec fn wf(&self) -> bool {
        &&& self.in_flight == count_status(self.slots@, SlotStatus::InFlight)
        &&& self.in_flight <= self.width
        &&& self.width >= 1
    }

    /// At every moment, no more segments are in flight than the pool is
    /// wide.
    pub proof fn lemma_pool_bounded(&self)
        requires
            self.wf(),
        ensures
            count_status(self@.slots, SlotStatus::InFlight) <= self@.width,
            self@.width >= 1,
    {
    }

    /// A scheduler for a run over `complete.len()` segments, of which those
    /// flagged in `complete` are on disk already. A pool width of zero
    /// counts as one.
    pub fn new(complete: &Vec<bool>, width: usize, retry_count: u32) -> (s: FetchScheduler)
        ensures
            s.wf(),
            s@.slots == Seq::new(complete.len() as nat, |i: int| initial_slot(complete@[i])),
            s@.width == if width == 0 {
                1
            } else {
                width as nat
            },
            s@.retry_count == retry_count,
            !s@.cancelled,
    {
        let mut slots: Vec<Slot> = Vec::new();
        let mut i: usize = 0;
        while i < complete.len()
            invariant
                i <= complete.len(),
                slots@ == Seq::new(i as nat, |k: int| initial_slot(complete@[k])),
                count_status(slots@, SlotStatus::InFlight) == 0,
            decreases complete.len() - i,
        {
            let status = if complete[i] {
                SlotStatus::Skipped
            } else {
                SlotStatus::Pending
            };
            let ghost before = slots@;
            slots.push(Slot { status, failures: 0, restarted: false });
            assert(slots@.drop_last() == before);
            i = i + 1;
        }
        FetchScheduler {
            slots,
            width: if width == 0 {
                1
            } else {
                width
            },
            retry_count,
            in_flight: 0,
            cancelled: false,
        }
    }

    /// Number of segments of the run.
    pub fn len(&self) -> (n: usize)
        ensures
            n == self@.slots.len(),
    {
        self.slots.len()
    }

    /// The record of segment `index`.
    pub fn slot(&self, index: usize) -> (r: Option<Slot>)
        ensures
            r == if index < self@.slots.len() {
                Some(self@.slots[index as int])
            } else {
                None
            },
    {
        if index < self.slots.len() {
            Some(self.slots[index])
        } else {
            None
        }
    }

    /// Number of segments in flight.
    pub fn in_flight(&self) -> (n: usize)
        requires
            self.wf(),
        ensures
            n == count_status(self@.slots, SlotStatus::InFlight),
            n <= self@.width,
    {
        self.in_flight
    }

    /// Starts the next request, if one may start: the first pending
    /// segment takes a place in the pool. Nothing starts while the pool is
    /// full, after a cancellation, or when no segment is pending.
    #[verifier::loop_isolation(false)]
    pub fn next_dispatch(&mut self) -> (r: Option<usize>)
        requires
            old(self).wf(),
        ensures
            final(self).wf(),
            match r {
                Some(i) => {
                    &&& pool_open(old(self)@)
                    &&& first_pending(old(self)@.slots, i as int)
                    &&& final(self)@ == (SchedulerModel {
                        slots: old(self)@.slots.update(
                            i as int,
                            Slot { status: SlotStatus::InFlight, ..old(self)@.slots[i as int] },
                        ),
                        ..old(self)@
                    })
                },
                None => {
                    &&& final(self)@ == old(self)@
                    &&& !pool_open(old(self)@) || forall|j: int|
                        0 <= j < old(self)@.slots.len() ==> !((
                        #[trigger] old(self)@.slots[j]).status is Pending)
                },
            },
    {
        if self.cancelled || self.in_flight >= self.width {
            return None;
        }
        let mut i: usize = 0;
        while i < self.slots.len()
            invariant
                *self == *old(self),
                i <= self.slots.len(),
                forall|j: int| 0 <= j < i ==> !((#[trigger] self.slots@[j]).status is Pending),
            decreases self.slots.len() - i,
        {
            let slot = self.slots[i];
            if slot.status == SlotStatus::Pending {
                let started = Slot {
                    status: SlotStatus::InFlight,
                    failures: slot.failures,
                    restarted: slot.restarted,
                };
                proof {
                    lemma_count_update(self.slots@, i as int, started, SlotStatus::InFlight);
                }
                self.slots[i] = started;
                self.in_flight = self.in_flight + 1;
                return Some(i);
            }
            i = i + 1;
        }
        None
    }

    /// Takes the answer to the request for segment `index` and says what
    /// follows. Only a segment in flight has answers; any other report is
    /// ignored. A stored or given-up segment leaves the pool; a retried or
    /// restarted one keeps its place.
    pub fn complete(&mut self, index: usize, outcome: FetchOutcome) -> (action: FetchAction)
        requires
            old(self).wf(),
        ensures
            final(self).wf(),
            index < old(self)@.slots.len() && old(self)@.slots[index as int].status is InFlight
                ==> action == settled(
                old(self)@.slots[index as int],
                outcome,
                old(self)@.retry_count,
            ).1 && final(self)@ == (SchedulerModel {
                slots: old(self)@.slots.update(
                    index as int,
                    settled(old(self)@.slots[index as int], outcome, old(self)@.retry_count).0,
                ),
                ..old(self)@
            }),
            !(index < old(self)@.slots.len() && old(self)@.slots[index as int].status is InFlight)
                ==> action is Ignore && final(self)@ == old(self)@,
    {
        if index >= self.slots.len() {
            return FetchAction::Ignore;
        }
        let slot = self.slots[index];
        if slot.status != SlotStatus::InFlight {
            return FetchAction::Ignore;
        }
        let (next, action) = match outcome {
            FetchOutcome::Success => (
                Slot { status: SlotStatus::Done, failures: slot.failures, restarted: slot.restarted },
                FetchAction::Store,
            ),
            FetchOutcome::RangeNotSatisfiable => if slot.restarted {
                (
                    Slot {
                        status: SlotStatus::Failed,
                        failures: slot.failures,
                        restarted: slot.restarted,
                    },
                    FetchAction::GiveUp,
                )
            } else {
                (
                    Slot { status: slot.status, failures: slot.failures, restarted: true },
                    FetchAction::Restart,
                )
            },
            FetchOutcome::Failure => if slot.restarted || slot.failures >= self.retry_count {
                (
                    Slot {
                        status: SlotStatus::Failed,
                        failures: slot.failures,
                        restarted: slot.restarted,
                    },
                    FetchAction::GiveUp,
                )
            } else {
                let failures = slot.failures + 1;
                (
                    Slot { status: slot.status, failures, restarted: slot.restarted },
                    FetchAction::Retry { delay_ms: backoff_delay_ms(failures) },
                )
            },
        };
        proof {
            lemma_count_update(self.slots@, index as int, next, SlotStatus::InFlight);
        }
        self.slots[index] = next;
        if next.status != SlotStatus::InFlight {
            self.in_flight = self.in_flight - 1;
        }
        action
    }

    /// Cancels the run: no further request starts. Requests in flight are
    /// left to end, and nothing that is stored is touched.
    pub fn cancel(&mut self)
        requires
            old(self).wf(),
        ensures
            final(self).wf(),
            final(self)@ == (SchedulerModel { cancelled: true, ..old(self)@ }),
    {
        self.cancelled = true;
    }

    /// Whether the status `status` occurs among the slots.
    #[verifier::loop_isolation(false)]
    fn has_status(&self, status: SlotStatus) -> (r: bool)
        ensures
            r == (count_status(self@.slots, status) > 0),
    {
        proof {
            lemma_count_zero(self.slots@, status);
        }
        let mut i: usize = 0;
        while i < self.slots.len()
            invariant
                i <= self.slots.len(),
                forall|j: int| 0 <= j < i ==> (#[trigger] self.slots@[j]).status != status,
            decreases self.slots.len() - i,
        {
            if self.slots[i].status == status {
                return true;
            }
            i = i + 1;
        }
        false
    }

    /// How the run stands.
    pub fn status(&self) -> (r: RunStatus)
        requires
            self.wf(),
        ensures
            r == run_status(self@),
    {
        if self.in_flight > 0 {
            RunStatus::Running
        } else if self.has_status(SlotStatus::Pending) {
            if self.cancelled {
                RunStatus::Cancelled
            } else {
                RunStatus::Running
            }
        } else if self.has_status(SlotStatus::Failed) {
            RunStatus::Failed
        } else {
            RunStatus::Succeeded
        }
    }

    /// The progress of the run as `(on disk, total)`: the segments that are
    /// stored or were skipped, of all.
    pub fn progress(&self) -> (p: (usize, usize))
        ensures
            p.0 == count_status(self@.slots, SlotStatus::Done) + count_status(
                self@.slots,
                SlotStatus::Skipped,
            ),
            p.1 == self@.slots.len(),
            p.0 <= p.1,
    {
        let mut on_disk: usize = 0;
        let mut i: usize = 0;
        while i < self.slots.len()
            invariant
                i <= self.slots.len(),
                on_disk == count_status(self.slots@.take(i as int), SlotStatus::Done)
                    + count_status(self.slots@.take(i as int), SlotStatus::Skipped),
                on_disk <= i,
            decreases self.slots.len() - i,
        {
            proof {
                assert(self.slots@.take(i + 1).drop_last() == self.slots@.take(i as int));
            }
            let status = self.slots[i].status;
            if status == SlotStatus::Done || status == SlotStatus::Skipped {
                on_disk = on_disk + 1;
            }
            i = i + 1;
        }
        proof {
            assert(self.slots@.take(self.slots.len() as int) == self.slots@);
        }
        (on_disk, self.slots.len())
    }
}

/// Whether segment `i` of a run needs no request: a state is at hand that
/// counts as many segments as the run, it has the segment as completed,
/// and the segment's file is present.
pub open spec fn on_disk(state: Option<&DownloadState>, present: Seq<bool>, i: int) -> bool {
    &&& state is Some
    &&& state->0@.total_segments == present.len()
    &&& state->0@.completed.contains(i as usize)
    &&& present[i]
}

/// The segments of a run that need no request. `present` says for each
/// segment of the run whether its file exists. Without a state, or with
/// one that counts another number of segments, every segment is
/// requested.
pub fn resume_flags(state: Option<&DownloadState>, present: &Vec<bool>) -> (flags: Vec<bool>)
    requires
        state matches Some(s) ==> s.wf(),
    ensures
        flags.len() == present.len(),
        forall|i: int| 0 <= i < flags.len() ==> #[trigger] flags@[i] == on_disk(state, present@, i),
{
    let usable = match state {
        Some(s) => s.total_segments() == present.len(),
        None => false,
    };
    let mut flags: Vec<bool> = Vec::new();
    let mut i: usize = 0;
    while i < present.len()
        invariant
            i <= present.len(),
            state matches Some(s) ==> s.wf(),
            usable == (state is Some && state->0@.total_segments == present.len()),
            flags.len() == i,
            forall|k: int| 0 <= k < i ==> #[trigger] flags@[k] == on_disk(state, present@, k),
        decreases present.len() - i,
    {
        let done = match state {
            Some(s) => usable && present[i] && s.is_segment_completed(i),
            None => false,
        };
        flags.push(done);
        i = i + 1;
    }
    flags
}

/// How the status of an HTTP answer counts: 200 and 206 carry the body,
/// 416 refuses the range, everything else is a failure.
pub open spec fn outcome_of_status(status: u16) -> FetchOutcome {
    if status == 200 || status == 206 {
        FetchOutcome::Success
    } else if status == 416 {
        FetchOutcome::RangeNotSatisfiable
    } else {
        FetchOutcome::Failure
    }
}

/// Classifies the status of an HTTP answer.
pub fn classify_status(status: u16) -> (r: FetchOutcome)
    ensures
        r == outcome_of_status(status),
{
    if status == 200 || status == 206 {
        FetchOutcome::Success
    } else if status == 416 {
        FetchOutcome::RangeNotSatisfiable
    } else {
        FetchOutcome::Failure
    }
}

/// The value of the `Range` header for a byte range: `bytes=<start>-<end>`.
pub open spec fn range_text(range: (u64, u64)) -> Seq<char> {
    "bytes="@ + decimal_text(range.0 as nat) + "-"@ + decimal_text(range.1 as nat)
}

/// The `Range` header of the request for a segment: none without a byte
/// range, else exactly that range.
pub fn range_header(byte_range: Option<(u64, u64)>) -> (r: Option<String>)
    ensures
        byte_range is None <==> r is None,
        r matches Some(h) ==> h@ == range_text(byte_range->0),
{
    match byte_range {
        Some((start, end)) => {
            let mut out: Vec<char> = Vec::new();
            push_str(&mut out, "bytes=");
            push_all(&mut out, &decimal(start));
            push_str(&mut out, "-");
            push_all(&mut out, &decimal(end));
            Some(from_chars(&out))
        },
        None => None,
    }
}

/// The `Range` header that resumes a segment of which `existing` bytes are
/// on disk: `bytes=<existing>-`, and none for an empty or missing file.
pub fn resume_header(existing: u64) -> (r: Option<String>)
    ensures
        existing == 0 <==> r is None,
        r matches Some(h) ==> h@ == "bytes="@ + decimal_text(existing as nat) + "-"@,
{
    if existing == 0 {
        None
    } else {
        let mut out: Vec<char> = Vec::new();
        push_str(&mut out, "bytes=");
        push_all(&mut out, &decimal(existing));
        push_str(&mut out, "-");
        Some(from_chars(&out))
    }
}

/// The `Range` header of the request for a segment of which `existing`
/// bytes are on disk: the segment's own byte range where it has one, else
/// the rest of a file that was begun, else none.
pub fn request_range(byte_range: Option<(u64, u64)>, existing: u64) -> (r: Option<String>)
    ensures
        r is None <==> byte_range is None && existing == 0,
        r matches Some(h) ==> h@ == match byte_range {
            Some(range) => range_text(range),
            None => "bytes="@ + decimal_text(existing as nat) + "-"@,
        },
{
    match byte_range {
        Some(_) => range_header(byte_range),
        None => resume_header(existing),
    }
}

/// Whether the body of an answer is appended to the partial file: only
/// where the request resumed a file that has bytes, which a request for
/// the segment's own byte range never does, and the answer is partial
/// content.
pub fn appends(byte_range: Option<(u64, u64)>, existing: u64, status: u16) -> (r: bool)
    ensures
        r == (byte_range is None && existing > 0 && status == 206),
{
    byte_range.is_none() && existing > 0 && status == 206
}

/// The file name of the segment with the given sequence number:
/// `segment_`, the number in at least four digits, a dot and the
/// extension.
pub open spec fn segment_name(sequence: u64, extension: Seq<char>) -> Seq<char> {
    "segment_"@ + zero_padded(decimal_text(sequence as nat), 4) + "."@ + extension
}

/// The file name under which the segment with the given sequence number is
/// stored.
pub fn segment_file_name(sequence: u64, extension: &str) -> (r: String)
    ensures
        r@ == segment_name(sequence, extension@),
{
    let mut out: Vec<char> = Vec::new();
    push_str(&mut out, "segment_");
    push_all(&mut out, &decimal_padded(sequence, 4));
    push_str(&mut out, ".");
    push_str(&mut out, extension);
    from_chars(&out)
}

/// The sequence numbers of `results` do not decrease.
pub open spec fn ordered(results: Seq<(u64, String)>) -> bool {
    forall|i: int, j: int|
        0 <= i < j < results.len() ==> (#[trigger] results[i]).0 <= (#[trigger] results[j]).0
}

/// Puts the fetched segments in reassembly order: by sequence number,
/// whatever the order in which they arrived. Nothing is added or lost.
pub fn order_by_sequence(results: Vec<(u64, String)>) -> (sorted: Vec<(u64, String)>)
    ensures
        ordered(sorted@),
        sorted@.to_multiset() == results@.to_multiset(),
        sorted.len() == results.len(),
{
    let ghost all = results@;
    let mut rest = results;
    let mut sorted: Vec<(u64, String)> = Vec::new();
    assert(sorted@.to_multiset() =~= vstd::multiset::Multiset::<(u64, String)>::empty()) by {
        sorted@.to_multiset_ensures();
    }
    while rest.len() > 0
        invariant
            ordered(sorted@),
            all.to_multiset() == sorted@.to_multiset().add(rest@.to_multiset()),
            sorted.len() + rest.len() == all.len(),
        decreases rest.len(),
    {
        let ghost before_rest = rest@;
        let ghost before_sorted = sorted@;
        let item = rest.pop().unwrap();
        assert(before_rest == rest@.push(item));
        let mut pos: usize = 0;
        while pos < sorted.len() && sorted[pos].0 <= item.0
            invariant
                pos <= sorted.len(),
                forall|k: int| 0 <= k < pos ==> (#[trigger] sorted@[k]).0 <= item.0,
            decreases sorted.len() - pos,
        {
            pos = pos + 1;
        }
        sorted.insert(pos, item);
        proof {
            vstd::seq_lib::to_multiset_insert(before_sorted, pos as int, item);
            vstd::seq_lib::to_multiset_build(rest@, item);
        }
    }
    proof {
        rest@.to_multiset_ensures();
    }
    sorted
}

/// The sequence number of each segment with the file it is stored in.
pub open spec fn stored_pairs(segments: Seq<StreamSegment>, paths: Seq<String>) -> Seq<
    (u64, String),
> {
    Seq::new(segments.len(), |i: int| (segments[i].sequence, paths[i]))
}

/// Ends a fetch: hands out the files of all segments in reassembly order,
/// but only where every segment is on disk. A run with a failed segment
/// is a download error, whatever else it fetched; a run that was
/// cancelled or still runs has no result either, nor have lists that are
/// not those of the run.
pub fn collect_results(
    scheduler: &FetchScheduler,
    segments: &Vec<StreamSegment>,
    paths: &Vec<String>,
) -> (r: Result<Vec<(u64, String)>, StreamingError>)
    requires
        scheduler.wf(),
    ensures
        if segments.len() != scheduler@.slots.len() || paths.len() != segments.len() {
            r matches Err(StreamingError::OtherError(_))
        } else {
            match run_status(scheduler@) {
                RunStatus::Succeeded => r is Ok && ordered(r->Ok_0@) && r->Ok_0@.to_multiset()
                    == stored_pairs(segments@, paths@).to_multiset(),
                RunStatus::Failed => r matches Err(StreamingError::SegmentDownloadError(_)),
                _ => r matches Err(StreamingError::OtherError(_)),
            }
        },
{
    if segments.len() != scheduler.len() || paths.len() != segments.len() {
        return Err(StreamingError::OtherError("the lists are not those of the run".to_owned()));
    }
    match scheduler.status() {
        RunStatus::Succeeded => {
            let mut pairs: Vec<(u64, String)> = Vec::new();
            let mut i: usize = 0;
            while i < segments.len()
                invariant
                    i <= segments.len(),
                    paths.len() == segments.len(),
                    pairs@ == stored_pairs(segments@, paths@).take(i as int),
                decreases segments.len() - i,
            {
                pairs.push((segments[i].sequence, paths[i].clone()));
                i = i + 1;
            }
            assert(pairs@ == stored_pairs(segments@, paths@));
            Ok(order_by_sequence(pairs))
        },
        RunStatus::Failed => Err(
            StreamingError::SegmentDownloadError("a segment could not be fetched".to_owned()),
        ),
        RunStatus::Cancelled => Err(StreamingError::OtherError("the run was cancelled".to_owned())),
        RunStatus::Running => Err(StreamingError::OtherError("the run has not ended".to_owned())),
    }
}

} // verus!
