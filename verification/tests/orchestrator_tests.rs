use nextdownloader::common::{SegmentDuration, StreamSegment, StreamingError, StreamingOptions};
use nextdownloader::fetch::RunStatus;
use nextdownloader::hls::{HlsManifest, HlsMaster, HlsMedia, HlsVariant};
use nextdownloader::merge::{
    concat_arguments, concat_arguments_for, concat_list, mux_arguments, OutputFormat,
};
use nextdownloader::orchestrator::{
    follow_playlist, merge_succeeded, plan_hls, plan_merge, Event, HlsStep, MergePlan, Orchestrator,
    Phase,
};

fn options() -> StreamingOptions {
    StreamingOptions::with_paths("/tmp/segments".to_string(), "out.mp4".to_string())
}

#[test]
fn default_options() {
    let o = options();
    assert_eq!(o.max_concurrent_downloads, 4);
    assert_eq!(o.retry_count, 3);
    assert_eq!(o.segment_timeout_secs, 30);
    assert!(o.cleanup_temp_files);
    assert!(!o.video_only && !o.audio_only);
    assert_eq!(o.pool_width(), 4);
    let mut wide = options();
    wide.max_concurrent_downloads = 1000;
    assert_eq!(wide.pool_width(), 32);
    wide.max_concurrent_downloads = 0;
    assert_eq!(wide.pool_width(), 1);
}

#[test]
fn a_run_walks_through_its_phases() {
    let mut o = Orchestrator::new();
    assert_eq!(o.phase(), Phase::Idle);
    assert_eq!(o.handle(Event::ManifestParsed), Phase::ManifestFetched);
    assert_eq!(o.handle(Event::RenditionChosen), Phase::RenditionSelected);
    assert!(!o.record_progress(1, 2));
    assert_eq!(o.handle(Event::FetchStarted), Phase::Downloading);
    assert!(o.record_progress(1, 2));
    assert!(!o.record_progress(3, 2));
    assert_eq!(o.progress(), (1, 2));
    assert_eq!(o.fetch_ended(RunStatus::Running), Phase::Downloading);
    assert_eq!(o.fetch_ended(RunStatus::Succeeded), Phase::Merging);
    assert!(o.keeps_state_entry());
    assert!(!o.cleans_up(&options()));
    assert_eq!(o.handle(Event::Merged), Phase::Completed);
    assert!(o.is_finished());
    assert!(!o.keeps_state_entry());
    assert!(o.cleans_up(&options()));
    let mut keep = options();
    keep.cleanup_temp_files = false;
    assert!(!o.cleans_up(&keep));
    // Nothing leaves a finished run.
    assert_eq!(o.handle(Event::Fatal), Phase::Completed);
    assert_eq!(o.handle(Event::Cancel), Phase::Completed);
    assert_eq!(o.handle(Event::ManifestParsed), Phase::Completed);
    assert_eq!(o.progress(), (1, 2));
}

#[test]
fn events_out_of_turn_change_nothing() {
    let mut o = Orchestrator::new();
    assert_eq!(o.handle(Event::Merged), Phase::Idle);
    assert_eq!(o.handle(Event::FetchStarted), Phase::Idle);
    assert_eq!(o.handle(Event::Cancel), Phase::Idle);
    o.handle(Event::ManifestParsed);
    assert_eq!(o.handle(Event::ManifestParsed), Phase::ManifestFetched);
    assert_eq!(o.handle(Event::Cancel), Phase::ManifestFetched);
}

#[test]
fn failure_and_cancellation_keep_the_state_entry() {
    let mut o = Orchestrator::new();
    assert_eq!(o.handle(Event::Fatal), Phase::Failed);
    assert!(o.is_finished());
    assert!(o.keeps_state_entry());
    assert!(!o.cleans_up(&options()));

    let mut o = Orchestrator::new();
    o.handle(Event::ManifestParsed);
    o.handle(Event::RenditionChosen);
    o.handle(Event::FetchStarted);
    o.record_progress(2, 5);
    assert_eq!(o.fetch_ended(RunStatus::Cancelled), Phase::Cancelled);
    assert!(o.keeps_state_entry());
    assert_eq!(o.progress(), (2, 5));
    assert_eq!(o.handle(Event::Fatal), Phase::Cancelled);

    let mut o = Orchestrator::new();
    o.handle(Event::ManifestParsed);
    o.handle(Event::RenditionChosen);
    o.handle(Event::FetchStarted);
    assert_eq!(o.fetch_ended(RunStatus::Failed), Phase::Failed);
    let mut o = Orchestrator::new();
    o.handle(Event::ManifestParsed);
    o.handle(Event::RenditionChosen);
    o.handle(Event::FetchStarted);
    o.handle(Event::SegmentsFetched);
    assert_eq!(o.handle(Event::Cancel), Phase::Cancelled);
}

fn segment(sequence: u64) -> StreamSegment {
    StreamSegment {
        url: format!("http://example.com/{}.ts", sequence),
        duration: SegmentDuration::Unknown,
        sequence,
        byte_range: None,
        title: None,
        is_initialization: false,
    }
}

#[test]
fn hls_steps() {
    let media = HlsManifest::Media(HlsMedia {
        url: "u".to_string(),
        segments: vec![segment(7), segment(8)],
        target_duration: 10,
        version: None,
        sequence_no: 7,
        is_live: false,
    });
    match plan_hls(media, &options()).unwrap() {
        HlsStep::Fetch(segments) => {
            assert_eq!(segments.len(), 2);
            assert_eq!(segments[0].sequence, 7);
        }
        other => panic!("unexpected {:?}", other),
    }
    let variant = |url: &str, bandwidth, resolution| HlsVariant {
        url: url.to_string(),
        resolution,
        bandwidth,
        codec: None,
    };
    let master = HlsManifest::Master(HlsMaster {
        url: "u".to_string(),
        variants: vec![
            variant("low", 1280000, Some((640, 360))),
            variant("high", 7680000, Some((1920, 1080))),
        ],
    });
    match plan_hls(master, &options()).unwrap() {
        HlsStep::Follow(v) => assert_eq!(v.url, "high"),
        other => panic!("unexpected {:?}", other),
    }
    let empty = HlsManifest::Master(HlsMaster { url: "u".to_string(), variants: Vec::new() });
    assert!(matches!(plan_hls(empty, &options()), Err(StreamingError::ManifestParseError(_))));
}

#[test]
fn playlists_are_followed_ten_times_and_never_in_a_circle() {
    let mut visited = Vec::new();
    assert!(follow_playlist(&mut visited, "a").is_ok());
    assert!(follow_playlist(&mut visited, "b").is_ok());
    assert!(matches!(
        follow_playlist(&mut visited, "a"),
        Err(StreamingError::ManifestParseError(_))
    ));
    assert_eq!(visited, vec!["a".to_string(), "b".to_string()]);
    for i in 2..10 {
        assert!(follow_playlist(&mut visited, &format!("p{}", i)).is_ok());
    }
    assert_eq!(visited.len(), 10);
    assert!(follow_playlist(&mut visited, "new").is_err());
    assert_eq!(visited.len(), 10);
}

#[test]
fn merge_plans() {
    let o = options();
    assert_eq!(plan_merge(true, true, &o, true).unwrap(), MergePlan::MuxBoth);
    assert!(matches!(plan_merge(true, true, &o, false), Err(StreamingError::MergeError(_))));
    assert_eq!(plan_merge(true, false, &o, false).unwrap(), MergePlan::VideoOnly);
    assert_eq!(plan_merge(false, true, &o, false).unwrap(), MergePlan::AudioOnly);
    assert!(matches!(plan_merge(false, false, &o, true), Err(StreamingError::NoSuitableRendition)));
    let mut video_only = options();
    video_only.video_only = true;
    assert_eq!(plan_merge(true, true, &video_only, false).unwrap(), MergePlan::VideoOnly);
    let mut audio_only = options();
    audio_only.audio_only = true;
    assert_eq!(plan_merge(true, true, &audio_only, true).unwrap(), MergePlan::VideoOnly);
    assert!(merge_succeeded(0, true));
    assert!(!merge_succeeded(1, true));
    assert!(!merge_succeeded(0, false));
}

#[test]
fn muxer_input() {
    let paths = vec!["/tmp/segment_0000.ts".to_string(), "/tmp/it's.ts".to_string()];
    assert_eq!(
        concat_list(&paths).unwrap(),
        "file '/tmp/segment_0000.ts'\nfile '/tmp/it'\\''s.ts'\n"
    );
    assert!(matches!(concat_list(&Vec::new()), Err(StreamingError::MergeError(_))));
    assert_eq!(
        concat_arguments("list.txt", "out.mp4"),
        ["-loglevel", "error", "-f", "concat", "-safe", "0", "-i", "list.txt", "-c", "copy", "out.mp4"]
    );
    assert_eq!(
        mux_arguments("v.mp4", "a.mp4", "out.mp4"),
        [
            "-loglevel", "error", "-i", "v.mp4", "-i", "a.mp4", "-c", "copy", "-movflags", "faststart",
            "-y", "out.mp4"
        ]
    );
}

#[test]
fn recoverable_errors() {
    assert!(StreamingError::RangeNotSatisfiable.is_recoverable());
    assert!(StreamingError::StateCorruptionError("x".to_string()).is_recoverable());
    assert!(!StreamingError::NoSuitableRendition.is_recoverable());
    assert!(!StreamingError::ManifestParseError("x".to_string()).is_recoverable());
    assert!(!StreamingError::MergeError("x".to_string()).is_recoverable());
    assert!(!StreamingError::SegmentDownloadError("x".to_string()).is_recoverable());
}

#[test]
fn a_run_ends_with_its_first_fatal_error() {
    let mut o = Orchestrator::new();
    assert!(o.terminal_error().is_none());
    o.handle(Event::ManifestParsed);
    assert_eq!(o.fail(StreamingError::NoSuitableRendition), Phase::Failed);
    assert!(matches!(o.terminal_error(), Some(StreamingError::NoSuitableRendition)));
    assert_eq!(o.fail(StreamingError::MergeError("late".to_string())), Phase::Failed);
    assert!(matches!(o.terminal_error(), Some(StreamingError::NoSuitableRendition)));
    assert!(matches!(o.take_error(), Some(StreamingError::NoSuitableRendition)));
    assert!(o.terminal_error().is_none());
    assert_eq!(o.phase(), Phase::Failed);

    let mut done = Orchestrator::new();
    done.handle(Event::ManifestParsed);
    done.handle(Event::RenditionChosen);
    done.handle(Event::FetchStarted);
    done.handle(Event::SegmentsFetched);
    done.handle(Event::Merged);
    assert_eq!(done.fail(StreamingError::NoSuitableRendition), Phase::Completed);
    assert!(done.terminal_error().is_none());
}

#[test]
fn muxer_arguments_by_format() {
    assert_eq!(OutputFormat::Mp4.extension(), "mp4");
    assert_eq!(OutputFormat::Mkv.extension(), "mkv");
    assert_eq!(OutputFormat::Mp3.extension(), "mp3");
    assert_eq!(
        concat_arguments_for(OutputFormat::Mp4, "l.txt", "o.mp4"),
        [
            "-loglevel", "error", "-f", "concat", "-safe", "0", "-i", "l.txt", "-c:v", "copy",
            "-c:a", "aac", "-movflags", "faststart", "-y", "o.mp4"
        ]
    );
    assert_eq!(
        concat_arguments_for(OutputFormat::Mkv, "l.txt", "o.mkv"),
        [
            "-loglevel", "error", "-f", "concat", "-safe", "0", "-i", "l.txt", "-c:v", "copy",
            "-c:a", "copy", "-y", "o.mkv"
        ]
    );
    assert_eq!(
        concat_arguments_for(OutputFormat::Mp3, "l.txt", "o.mp3"),
        [
            "-loglevel", "error", "-f", "concat", "-safe", "0", "-i", "l.txt", "-vn", "-c:a",
            "libmp3lame", "-q:a", "2", "-y", "o.mp3"
        ]
    );
}
