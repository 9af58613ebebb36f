use nextdownloader::common::{SegmentDuration, StreamSegment, StreamingError};
use nextdownloader::fetch::{
    appends, backoff_delay_ms, classify_status, collect_results, order_by_sequence, range_header,
    request_range, resume_header, segment_file_name, FetchAction, FetchOutcome, FetchScheduler, RunStatus,
    SlotStatus,
};

fn pending(n: usize) -> Vec<bool> {
    vec![false; n]
}

#[test]
fn the_pool_never_holds_more_than_its_width() {
    let mut s = FetchScheduler::new(&pending(5), 2, 0);
    assert_eq!(s.next_dispatch(), Some(0));
    assert_eq!(s.next_dispatch(), Some(1));
    assert_eq!(s.in_flight(), 2);
    assert_eq!(s.next_dispatch(), None);
    assert_eq!(s.in_flight(), 2);
    assert_eq!(s.complete(1, FetchOutcome::Success), FetchAction::Store);
    assert_eq!(s.in_flight(), 1);
    assert_eq!(s.next_dispatch(), Some(2));
    assert_eq!(s.next_dispatch(), None);
    assert_eq!(s.complete(0, FetchOutcome::Success), FetchAction::Store);
    assert_eq!(s.complete(2, FetchOutcome::Success), FetchAction::Store);
    assert_eq!(s.next_dispatch(), Some(3));
    assert_eq!(s.next_dispatch(), Some(4));
    assert_eq!(s.next_dispatch(), None);
    assert_eq!(s.status(), RunStatus::Running);
    assert_eq!(s.complete(3, FetchOutcome::Success), FetchAction::Store);
    assert_eq!(s.complete(4, FetchOutcome::Success), FetchAction::Store);
    assert_eq!(s.in_flight(), 0);
    assert_eq!(s.status(), RunStatus::Succeeded);
    assert_eq!(s.progress(), (5, 5));
}

#[test]
fn a_refused_range_restarts_once() {
    let mut s = FetchScheduler::new(&pending(1), 1, 3);
    assert_eq!(s.next_dispatch(), Some(0));
    assert_eq!(s.complete(0, FetchOutcome::RangeNotSatisfiable), FetchAction::Restart);
    // The segment keeps its place while it is fetched again.
    assert_eq!(s.in_flight(), 1);
    assert_eq!(s.next_dispatch(), None);
    assert_eq!(s.complete(0, FetchOutcome::RangeNotSatisfiable), FetchAction::GiveUp);
    assert_eq!(s.slot(0).unwrap().status, SlotStatus::Failed);
    assert_eq!(s.status(), RunStatus::Failed);

    let mut s = FetchScheduler::new(&pending(1), 1, 3);
    s.next_dispatch();
    assert_eq!(s.complete(0, FetchOutcome::RangeNotSatisfiable), FetchAction::Restart);
    assert_eq!(s.complete(0, FetchOutcome::Success), FetchAction::Store);
    assert_eq!(s.status(), RunStatus::Succeeded);

    // After the restart there is no further retry, whatever retries are left.
    let mut s = FetchScheduler::new(&pending(1), 1, 3);
    s.next_dispatch();
    assert_eq!(s.complete(0, FetchOutcome::Failure), FetchAction::Retry { delay_ms: 1000 });
    assert_eq!(s.complete(0, FetchOutcome::RangeNotSatisfiable), FetchAction::Restart);
    assert_eq!(s.complete(0, FetchOutcome::Failure), FetchAction::GiveUp);
}

#[test]
fn failures_are_retried_with_doubling_delay() {
    let mut s = FetchScheduler::new(&pending(2), 2, 3);
    assert_eq!(s.next_dispatch(), Some(0));
    assert_eq!(s.complete(0, FetchOutcome::Failure), FetchAction::Retry { delay_ms: 1000 });
    assert_eq!(s.complete(0, FetchOutcome::Failure), FetchAction::Retry { delay_ms: 2000 });
    assert_eq!(s.complete(0, FetchOutcome::Failure), FetchAction::Retry { delay_ms: 4000 });
    assert_eq!(s.slot(0).unwrap().failures, 3);
    assert_eq!(s.complete(0, FetchOutcome::Failure), FetchAction::GiveUp);
    assert_eq!(s.in_flight(), 0);
    // The other segment is still fetched; the run fails once it is done.
    assert_eq!(s.status(), RunStatus::Running);
    assert_eq!(s.next_dispatch(), Some(1));
    assert_eq!(s.complete(1, FetchOutcome::Success), FetchAction::Store);
    assert_eq!(s.status(), RunStatus::Failed);
    assert_eq!(s.progress(), (1, 2));

    let mut none = FetchScheduler::new(&pending(1), 1, 0);
    none.next_dispatch();
    assert_eq!(none.complete(0, FetchOutcome::Failure), FetchAction::GiveUp);
}

#[test]
fn backoff_values() {
    assert_eq!(backoff_delay_ms(0), 500);
    assert_eq!(backoff_delay_ms(1), 1000);
    assert_eq!(backoff_delay_ms(2), 2000);
    assert_eq!(backoff_delay_ms(10), 512_000);
    assert_eq!(backoff_delay_ms(55), 500 * (1u64 << 55));
    assert_eq!(backoff_delay_ms(56), u64::MAX);
    assert_eq!(backoff_delay_ms(1000), u64::MAX);
}

#[test]
fn reports_for_segments_not_in_flight_are_ignored() {
    let mut s = FetchScheduler::new(&vec![true, false], 4, 1);
    assert_eq!(s.complete(0, FetchOutcome::Success), FetchAction::Ignore);
    assert_eq!(s.complete(1, FetchOutcome::Success), FetchAction::Ignore);
    assert_eq!(s.complete(2, FetchOutcome::Success), FetchAction::Ignore);
    assert_eq!(s.slot(0).unwrap().status, SlotStatus::Skipped);
    assert_eq!(s.slot(1).unwrap().status, SlotStatus::Pending);
    assert_eq!(s.slot(2), None);
    assert_eq!(s.next_dispatch(), Some(1));
    assert_eq!(s.complete(1, FetchOutcome::Success), FetchAction::Store);
    assert_eq!(s.complete(1, FetchOutcome::Success), FetchAction::Ignore);
    assert_eq!(s.progress(), (2, 2));
    assert_eq!(s.status(), RunStatus::Succeeded);
}

#[test]
fn cancellation_stops_new_requests_only() {
    let mut s = FetchScheduler::new(&pending(3), 1, 1);
    assert_eq!(s.next_dispatch(), Some(0));
    s.cancel();
    assert_eq!(s.status(), RunStatus::Running);
    assert_eq!(s.complete(0, FetchOutcome::Success), FetchAction::Store);
    assert_eq!(s.next_dispatch(), None);
    assert_eq!(s.status(), RunStatus::Cancelled);
    assert_eq!(s.progress(), (1, 3));
    assert_eq!(s.slot(0).unwrap().status, SlotStatus::Done);
}

#[test]
fn empty_and_complete_runs_succeed_at_once() {
    let mut s = FetchScheduler::new(&Vec::new(), 4, 1);
    assert_eq!(s.len(), 0);
    assert_eq!(s.next_dispatch(), None);
    assert_eq!(s.status(), RunStatus::Succeeded);
    let mut s = FetchScheduler::new(&vec![true, true], 0, 1);
    assert_eq!(s.next_dispatch(), None);
    assert_eq!(s.status(), RunStatus::Succeeded);
    assert_eq!(s.progress(), (2, 2));
    // A width of zero counts as one.
    let mut s = FetchScheduler::new(&pending(2), 0, 1);
    assert_eq!(s.next_dispatch(), Some(0));
    assert_eq!(s.next_dispatch(), None);
}

#[test]
fn statuses_and_headers() {
    assert_eq!(classify_status(200), FetchOutcome::Success);
    assert_eq!(classify_status(206), FetchOutcome::Success);
    assert_eq!(classify_status(204), FetchOutcome::Failure);
    assert_eq!(classify_status(416), FetchOutcome::RangeNotSatisfiable);
    assert_eq!(classify_status(404), FetchOutcome::Failure);
    assert_eq!(classify_status(500), FetchOutcome::Failure);
    assert_eq!(range_header(None), None);
    assert_eq!(range_header(Some((0, 1023))), Some("bytes=0-1023".to_string()));
    assert_eq!(
        range_header(Some((u64::MAX, u64::MAX))),
        Some("bytes=18446744073709551615-18446744073709551615".to_string())
    );
    assert_eq!(resume_header(0), None);
    assert_eq!(resume_header(4096), Some("bytes=4096-".to_string()));
    assert_eq!(request_range(Some((5, 9)), 100), Some("bytes=5-9".to_string()));
    assert_eq!(request_range(None, 100), Some("bytes=100-".to_string()));
    assert_eq!(request_range(None, 0), None);
    assert!(appends(None, 10, 206));
    assert!(!appends(None, 0, 206));
    assert!(!appends(None, 10, 200));
    assert!(!appends(Some((0, 9)), 10, 206));
}

#[test]
fn segment_files_are_numbered() {
    assert_eq!(segment_file_name(0, "ts"), "segment_0000.ts");
    assert_eq!(segment_file_name(42, "m4s"), "segment_0042.m4s");
    assert_eq!(segment_file_name(9999, "ts"), "segment_9999.ts");
    assert_eq!(segment_file_name(10000, "ts"), "segment_10000.ts");
}

#[test]
fn results_are_ordered_by_sequence() {
    let arrived = vec![
        (3u64, "d".to_string()),
        (0, "a".to_string()),
        (2, "c".to_string()),
        (1, "b".to_string()),
    ];
    let sorted = order_by_sequence(arrived);
    assert_eq!(
        sorted,
        vec![(0u64, "a".to_string()), (1, "b".to_string()), (2, "c".to_string()), (3, "d".to_string())]
    );
    assert!(order_by_sequence(Vec::new()).is_empty());
    let twice = order_by_sequence(vec![(1u64, "x".to_string()), (1, "y".to_string()), (0, "z".to_string())]);
    let sequences: Vec<u64> = twice.iter().map(|r| r.0).collect();
    assert_eq!(sequences, vec![0, 1, 1]);
    assert_eq!(twice.len(), 3);
}

fn segment(sequence: u64) -> StreamSegment {
    StreamSegment {
        url: format!("http://example.com/{}.ts", sequence),
        duration: SegmentDuration::Unknown,
        sequence,
        byte_range: None,
        title: None,
        is_initialization: false,
    }
}

#[test]
fn results_come_only_from_a_run_that_succeeded() {
    let segments = vec![segment(12), segment(10), segment(11)];
    let paths = vec!["c".to_string(), "a".to_string(), "b".to_string()];
    let mut s = FetchScheduler::new(&vec![false, true, false], 2, 0);
    assert!(matches!(collect_results(&s, &segments, &paths), Err(StreamingError::OtherError(_))));
    assert_eq!(s.next_dispatch(), Some(0));
    assert_eq!(s.next_dispatch(), Some(2));
    s.complete(2, FetchOutcome::Success);
    assert!(matches!(collect_results(&s, &segments, &paths), Err(StreamingError::OtherError(_))));
    s.complete(0, FetchOutcome::Success);
    assert_eq!(
        collect_results(&s, &segments, &paths).unwrap(),
        vec![(10u64, "a".to_string()), (11, "b".to_string()), (12, "c".to_string())]
    );
    let short = vec!["c".to_string()];
    assert!(matches!(collect_results(&s, &segments, &short), Err(StreamingError::OtherError(_))));

    let mut failed = FetchScheduler::new(&vec![false, false], 2, 0);
    failed.next_dispatch();
    failed.next_dispatch();
    failed.complete(0, FetchOutcome::Success);
    failed.complete(1, FetchOutcome::Failure);
    let two = vec![segment(0), segment(1)];
    let two_paths = vec!["a".to_string(), "b".to_string()];
    assert!(matches!(
        collect_results(&failed, &two, &two_paths),
        Err(StreamingError::SegmentDownloadError(_))
    ));

    let mut cancelled = FetchScheduler::new(&vec![false, false], 1, 0);
    cancelled.next_dispatch();
    cancelled.cancel();
    cancelled.complete(0, FetchOutcome::Success);
    assert!(matches!(
        collect_results(&cancelled, &two, &two_paths),
        Err(StreamingError::OtherError(_))
    ));
}
