use nextdownloader::common::{StreamingError, StreamingOptions};
use nextdownloader::hls::HlsVariant;
use nextdownloader::quality::{best_variant_index, select_best_variant};
use nextdownloader::select::{check_acceptable, check_outranks, select, Candidate, Track};

fn options() -> StreamingOptions {
    StreamingOptions::with_paths("/tmp/segments".to_string(), "out.mp4".to_string())
}

fn variant(url: &str, bandwidth: u64, resolution: Option<(u64, u64)>) -> HlsVariant {
    HlsVariant { url: url.to_string(), resolution, bandwidth, codec: None }
}

fn three_variants() -> Vec<HlsVariant> {
    vec![
        variant("low", 1280000, Some((640, 360))),
        variant("medium", 2560000, Some((854, 480))),
        variant("high", 7680000, Some((1920, 1080))),
    ]
}

#[test]
fn unconstrained_selection_takes_the_largest_picture() {
    let chosen = select_best_variant(&three_variants(), &options()).unwrap();
    assert_eq!(chosen.resolution, Some((1920, 1080)));
    assert_eq!(chosen.bandwidth, 7680000);
    assert_eq!(chosen.url, "high");
}

#[test]
fn max_resolution_bounds_the_selection() {
    let mut o = options();
    o.max_resolution = Some((1280, 720));
    let chosen = select_best_variant(&three_variants(), &o).unwrap();
    assert_eq!(chosen.resolution, Some((854, 480)));
    assert_eq!(chosen.bandwidth, 2560000);
}

#[test]
fn resolution_bounds_go_by_area() {
    // 1000x900 is wider than it is allowed to be high, but has fewer pixels
    // than 1280x720.
    let mut o = options();
    o.max_resolution = Some((1280, 720));
    let variants = vec![variant("a", 1, Some((640, 360))), variant("b", 1, Some((1000, 900)))];
    assert_eq!(best_variant_index(&variants, &o), Some(1));
    let variants = vec![variant("a", 1, Some((640, 360))), variant("b", 1, Some((1280, 721)))];
    assert_eq!(best_variant_index(&variants, &o), Some(0));
    o.max_resolution = None;
    o.min_resolution = Some((1280, 720));
    assert_eq!(best_variant_index(&three_variants(), &o), Some(2));
}

#[test]
fn bounds_that_exclude_everything_are_dropped() {
    let mut o = options();
    o.max_resolution = Some((100, 100));
    let chosen = select_best_variant(&three_variants(), &o).unwrap();
    assert_eq!(chosen.resolution, Some((1920, 1080)));
    let mut o = options();
    o.min_bitrate = Some(100_000);
    assert_eq!(best_variant_index(&three_variants(), &o), Some(2));
}

#[test]
fn bitrate_bounds_are_in_kilobits() {
    let mut o = options();
    o.max_bitrate = Some(2560);
    assert_eq!(best_variant_index(&three_variants(), &o), Some(1));
    o.max_bitrate = Some(2559);
    assert_eq!(best_variant_index(&three_variants(), &o), Some(0));
    o.max_bitrate = None;
    o.min_bitrate = Some(2561);
    assert_eq!(best_variant_index(&three_variants(), &o), Some(2));
    o.min_bitrate = Some(u64::MAX);
    assert_eq!(best_variant_index(&three_variants(), &o), Some(2));
}

#[test]
fn ties_go_to_bandwidth_then_to_the_first() {
    let o = options();
    let variants = vec![
        variant("a", 100, Some((1280, 720))),
        variant("b", 300, Some((1280, 720))),
        variant("c", 300, Some((720, 1280))),
        variant("d", 200, Some((1280, 720))),
    ];
    assert_eq!(best_variant_index(&variants, &o), Some(1));
    let unknown = vec![variant("a", 100, None), variant("b", 100, None)];
    assert_eq!(best_variant_index(&unknown, &o), Some(0));
}

#[test]
fn unknown_size_passes_resolution_bounds_and_ranks_last() {
    let mut o = options();
    o.max_resolution = Some((100, 100));
    let variants = vec![variant("a", 100, Some((640, 360))), variant("b", 50, None)];
    // Only the variant of unknown size meets the bound.
    assert_eq!(best_variant_index(&variants, &o), Some(1));
    assert_eq!(best_variant_index(&variants, &options()), Some(0));
}

#[test]
fn no_variant_is_no_rendition() {
    let r = select_best_variant(&Vec::new(), &options());
    assert!(matches!(r, Err(StreamingError::NoSuitableRendition)));
    assert_eq!(best_variant_index(&Vec::new(), &options()), None);
}

#[test]
fn audio_ranks_by_bandwidth_alone() {
    let o = options();
    let candidates = vec![
        Candidate { resolution: Some((1920, 1080)), bandwidth: 64_000 },
        Candidate { resolution: None, bandwidth: 128_000 },
        Candidate { resolution: None, bandwidth: 128_000 },
    ];
    assert_eq!(select(Track::Audio, &candidates, &o), Some(1));
    assert_eq!(select(Track::Video, &candidates, &o), Some(0));
    let mut bounded = options();
    bounded.max_resolution = Some((10, 10));
    bounded.max_bitrate = Some(64);
    assert_eq!(select(Track::Audio, &candidates, &bounded), Some(0));
    assert!(check_acceptable(Track::Audio, &candidates[0], &bounded));
    assert!(!check_acceptable(Track::Video, &candidates[0], &bounded));
    assert!(check_outranks(Track::Audio, &candidates[1], &candidates[0]));
    assert!(!check_outranks(Track::Video, &candidates[1], &candidates[0]));
}

#[test]
fn huge_pictures_do_not_overflow() {
    let o = options();
    let candidates = vec![
        Candidate { resolution: Some((u64::MAX, u64::MAX)), bandwidth: 1 },
        Candidate { resolution: Some((u64::MAX, u64::MAX - 1)), bandwidth: 2 },
    ];
    assert_eq!(select(Track::Video, &candidates, &o), Some(0));
}
