use nextdownloader::common::{SegmentDuration, StreamType, StreamingError, StreamingOptions};
use nextdownloader::dash::{
    classify, convert_representation, manifest_from_mpd, DashRepresentation, MpdAdaptationSet,
    MpdDocument, MpdPeriod, MpdRepresentation, SegmentSource, SegmentTemplate, TimelineEntry,
};
use nextdownloader::duration::parse_duration_ms;
use nextdownloader::fetch::order_by_sequence;
use nextdownloader::planner::{base_url, plan_segments};
use nextdownloader::quality::select_best_quality;

fn template(timeline: Option<Vec<TimelineEntry>>) -> SegmentTemplate {
    SegmentTemplate {
        initialization: Some("$RepresentationID$/init.mp4".to_string()),
        media: Some("$RepresentationID$/seg-$Number$.m4s".to_string()),
        start_number: None,
        duration: None,
        timescale: Some(1000),
        timeline,
    }
}

fn entry(duration: u64, repeat: Option<i32>) -> TimelineEntry {
    TimelineEntry { start: None, duration, repeat }
}

fn representation(id: &str, bandwidth: u64, size: Option<(u32, u32)>) -> MpdRepresentation {
    MpdRepresentation {
        id: id.to_string(),
        bandwidth: Some(bandwidth),
        width: size.map(|s| s.0),
        height: size.map(|s| s.1),
        codecs: Some("avc1".to_string()),
        mime_type: None,
        segment_template: None,
        segment_list: None,
    }
}

fn set(content_type: &str, reps: Vec<MpdRepresentation>, t: Option<SegmentTemplate>) -> MpdAdaptationSet {
    MpdAdaptationSet {
        id: Some("1".to_string()),
        content_type: Some(content_type.to_string()),
        mime_type: None,
        lang: None,
        representations: reps,
        segment_template: t,
    }
}

fn options() -> StreamingOptions {
    StreamingOptions::with_paths("/tmp/segments".to_string(), "out.mp4".to_string())
}

#[test]
fn classification_prefers_the_content_type() {
    let s = |x: &str| Some(x.to_string());
    assert_eq!(classify(&s("video"), &None), StreamType::Video);
    assert_eq!(classify(&s("audio"), &s("video/mp4")), StreamType::Audio);
    assert_eq!(classify(&s("text"), &None), StreamType::Subtitle);
    assert_eq!(classify(&s("subtitle"), &None), StreamType::Subtitle);
    assert_eq!(classify(&None, &s("video/mp4")), StreamType::Video);
    assert_eq!(classify(&s("image"), &s("audio/mp4")), StreamType::Audio);
    assert_eq!(classify(&None, &s("text/vtt")), StreamType::Subtitle);
    assert_eq!(classify(&None, &s("application/ttml+xml")), StreamType::Subtitle);
    assert_eq!(classify(&None, &s("video/webm")), StreamType::Other);
    assert_eq!(classify(&None, &None), StreamType::Other);
    assert_eq!(classify(&s("Video"), &None), StreamType::Other);
}

#[test]
fn one_timeline_plans_init_and_three_segments() {
    let timeline = vec![entry(2000, Some(0)), entry(2000, Some(0)), entry(1500, Some(0))];
    let mpd = MpdDocument {
        periods: vec![MpdPeriod {
            adaptation_sets: vec![set(
                "video",
                vec![representation("v1", 500_000, Some((1280, 720)))],
                Some(template(Some(timeline))),
            )],
        }],
        duration_ms: Some(6000),
        dynamic: false,
    };
    let url = "http://example.com/media/manifest.mpd";
    let manifest = manifest_from_mpd(&mpd, url);
    assert_eq!(manifest.url, url);
    assert_eq!(manifest.duration, Some(6000));
    assert!(!manifest.is_live);
    assert_eq!(manifest.video_adaptations.len(), 1);
    assert_eq!(manifest.audio_adaptations.len(), 0);
    assert_eq!(manifest.video_adaptations[0].stream_type, StreamType::Video);
    assert_eq!(manifest.video_adaptations[0].id, "1");

    let (video, audio) = select_best_quality(&manifest, &options()).unwrap();
    assert!(audio.is_none());
    let video = video.unwrap();
    assert_eq!(video.id, "v1");
    assert_eq!(video.bandwidth, 500_000);
    assert_eq!(video.resolution, Some((1280, 720)));

    let base = base_url(url);
    assert_eq!(base, "http://example.com/media/");
    let plan = plan_segments(&base, video, manifest.duration).unwrap();
    assert_eq!(plan.len(), 4);
    assert!(plan[0].is_initialization);
    assert_eq!(plan[0].sequence, 0);
    assert_eq!(plan[0].url, "http://example.com/media/v1/init.mp4");
    assert_eq!(plan[0].duration, SegmentDuration::Unknown);
    let urls: Vec<&str> = plan.iter().map(|s| s.url.as_str()).collect();
    assert_eq!(
        urls[1..],
        [
            "http://example.com/media/v1/seg-1.m4s",
            "http://example.com/media/v1/seg-2.m4s",
            "http://example.com/media/v1/seg-3.m4s"
        ]
    );
    for (i, s) in plan.iter().enumerate() {
        assert_eq!(s.sequence, i as u64);
        assert_eq!(s.is_initialization, i == 0);
        assert_eq!(s.byte_range, None);
    }
    assert_eq!(plan[1].duration, SegmentDuration::Ticks { ticks: 2000, timescale: 1000 });
    assert_eq!(plan[3].duration, SegmentDuration::Ticks { ticks: 1500, timescale: 1000 });

    // Whatever the order of arrival, reassembly is init, 0, 1, 2.
    let arrived = vec![
        (plan[2].sequence, "seg-2".to_string()),
        (plan[0].sequence, "init".to_string()),
        (plan[3].sequence, "seg-3".to_string()),
        (plan[1].sequence, "seg-1".to_string()),
    ];
    let ordered: Vec<String> = order_by_sequence(arrived).into_iter().map(|r| r.1).collect();
    assert_eq!(ordered, ["init", "seg-1", "seg-2", "seg-3"]);
}

fn rep_with(source: SegmentSource) -> DashRepresentation {
    DashRepresentation {
        id: "a".to_string(),
        bandwidth: 1,
        codec: None,
        resolution: None,
        mime_type: None,
        source,
    }
}

#[test]
fn repeats_expand_and_negative_repeats_vanish() {
    let mut t = template(Some(vec![entry(10, Some(2)), entry(20, Some(-1)), entry(30, None)]));
    t.initialization = None;
    t.start_number = Some(5);
    t.timescale = None;
    let plan = plan_segments("b/", &rep_with(SegmentSource::Template(t)), None).unwrap();
    let urls: Vec<&str> = plan.iter().map(|s| s.url.as_str()).collect();
    assert_eq!(urls, ["b/a/seg-5.m4s", "b/a/seg-6.m4s", "b/a/seg-7.m4s", "b/a/seg-8.m4s"]);
    let ticks: Vec<SegmentDuration> = plan.iter().map(|s| s.duration).collect();
    assert_eq!(
        ticks,
        [
            SegmentDuration::Ticks { ticks: 10, timescale: 1 },
            SegmentDuration::Ticks { ticks: 10, timescale: 1 },
            SegmentDuration::Ticks { ticks: 10, timescale: 1 },
            SegmentDuration::Ticks { ticks: 30, timescale: 1 }
        ]
    );
    assert_eq!(plan[0].sequence, 0);
    assert_eq!(plan[3].sequence, 3);
    assert!(plan.iter().all(|s| !s.is_initialization));
}

#[test]
fn fixed_duration_counts_segments_from_the_presentation() {
    let mut t = template(None);
    t.duration = Some(4000);
    // 10 s at 1000 units a second in pieces of 4000 units: 3 segments.
    let plan = plan_segments("b/", &rep_with(SegmentSource::Template(t)), Some(10_000)).unwrap();
    assert_eq!(plan.len(), 1 + 3);
    assert_eq!(plan[3].url, "b/a/seg-3.m4s");
    assert_eq!(plan[3].duration, SegmentDuration::Ticks { ticks: 4000, timescale: 1000 });

    let mut exact = template(None);
    exact.duration = Some(5000);
    exact.initialization = None;
    let plan = plan_segments("b/", &rep_with(SegmentSource::Template(exact)), Some(10_000)).unwrap();
    assert_eq!(plan.len(), 2);
    let mut tail = template(None);
    tail.duration = Some(5000);
    tail.initialization = None;
    let plan = plan_segments("b/", &rep_with(SegmentSource::Template(tail)), Some(10_001)).unwrap();
    assert_eq!(plan.len(), 3);

    let mut empty = template(None);
    empty.duration = Some(5000);
    let plan = plan_segments("b/", &rep_with(SegmentSource::Template(empty)), Some(0)).unwrap();
    assert_eq!(plan.len(), 1);
}

#[test]
fn unusable_templates_are_refused() {
    let mut no_media = template(Some(vec![entry(1, None)]));
    no_media.media = None;
    let r = plan_segments("b/", &rep_with(SegmentSource::Template(no_media)), Some(1));
    assert!(matches!(r, Err(StreamingError::ManifestParseError(_))));
    let mut unknown_length = template(None);
    unknown_length.duration = Some(4000);
    let r = plan_segments("b/", &rep_with(SegmentSource::Template(unknown_length)), None);
    assert!(matches!(r, Err(StreamingError::ManifestParseError(_))));
    let mut zero = template(None);
    zero.duration = Some(0);
    let r = plan_segments("b/", &rep_with(SegmentSource::Template(zero)), Some(1));
    assert!(matches!(r, Err(StreamingError::ManifestParseError(_))));
    let mut too_many = template(None);
    too_many.duration = Some(1);
    too_many.timescale = Some(u32::MAX);
    let r = plan_segments("b/", &rep_with(SegmentSource::Template(too_many)), Some(u64::MAX));
    assert!(matches!(r, Err(StreamingError::ManifestParseError(_))));
}

#[test]
fn listed_segments_are_joined_in_order() {
    let list = vec!["a.m4s".to_string(), "http://cdn/b.m4s".to_string(), "c/d.m4s".to_string()];
    let plan = plan_segments("http://h/p/", &rep_with(SegmentSource::List(list)), None).unwrap();
    let urls: Vec<&str> = plan.iter().map(|s| s.url.as_str()).collect();
    assert_eq!(urls, ["http://h/p/a.m4s", "http://cdn/b.m4s", "http://h/p/c/d.m4s"]);
    assert_eq!(plan[2].sequence, 2);
    assert_eq!(plan[0].duration, SegmentDuration::Unknown);
    let none = plan_segments("x", &rep_with(SegmentSource::List(Vec::new())), None).unwrap();
    assert!(none.is_empty());
}

#[test]
fn absolute_patterns_are_not_joined() {
    let mut t = template(Some(vec![entry(1, None)]));
    t.initialization = Some("http://cdn/$RepresentationID$/init.mp4".to_string());
    t.media = Some("http://cdn/$RepresentationID$/$Number$.m4s".to_string());
    let plan = plan_segments("b/", &rep_with(SegmentSource::Template(t)), None).unwrap();
    // An absolute initialization pattern is taken as it stands.
    assert_eq!(plan[0].url, "http://cdn/$RepresentationID$/init.mp4");
    assert_eq!(plan[1].url, "http://cdn/a/1.m4s");
}

#[test]
fn base_url_cuts_after_the_last_slash() {
    assert_eq!(base_url("http://example.com/a/b/manifest.mpd"), "http://example.com/a/b/");
    assert_eq!(base_url("http://example.com/"), "http://example.com/");
    assert_eq!(base_url("manifest.mpd"), "");
    assert_eq!(base_url(""), "");
}

#[test]
fn unusable_representations_and_empty_sets_are_left_out() {
    let usable = {
        let mut r = representation("ok", 1, None);
        r.segment_list = Some(vec!["s.m4s".to_string()]);
        r
    };
    let bare = representation("bare", 2, None);
    let own = {
        let mut r = representation("own", 3, Some((640, 360)));
        r.segment_template = Some(template(Some(Vec::new())));
        r
    };
    let mpd = MpdDocument {
        periods: vec![
            MpdPeriod {
                adaptation_sets: vec![
                    set("video", vec![bare, usable, own], None),
                    set("video", vec![representation("none", 1, None)], None),
                    set("image", vec![representation("img", 1, None)], Some(template(Some(Vec::new())))),
                ],
            },
            MpdPeriod {
                adaptation_sets: vec![
                    set("audio", vec![representation("a1", 64_000, None)], Some(template(Some(Vec::new())))),
                    set("text", vec![representation("t1", 1, None)], Some(template(Some(Vec::new())))),
                ],
            },
        ],
        duration_ms: None,
        dynamic: true,
    };
    let m = manifest_from_mpd(&mpd, "u");
    assert!(m.is_live);
    assert_eq!(m.video_adaptations.len(), 1);
    let ids: Vec<&str> = m.video_adaptations[0].representations.iter().map(|r| r.id.as_str()).collect();
    assert_eq!(ids, ["ok", "own"]);
    assert!(matches!(m.video_adaptations[0].representations[0].source, SegmentSource::List(_)));
    assert_eq!(m.video_adaptations[0].representations[1].resolution, Some((640, 360)));
    assert_eq!(m.audio_adaptations.len(), 1);
    assert_eq!(m.audio_adaptations[0].representations[0].bandwidth, 64_000);
    assert_eq!(m.subtitle_adaptations.len(), 1);

    let set_template = set("video", Vec::new(), Some(template(None)));
    let r = representation("r", 1, None);
    assert!(convert_representation(&r, &set_template, None).is_none());
}

#[test]
fn quality_options_rule_tracks_out() {
    let mpd = MpdDocument {
        periods: vec![MpdPeriod {
            adaptation_sets: vec![
                set(
                    "video",
                    vec![
                        representation("v360", 800_000, Some((640, 360))),
                        representation("v1080", 5_000_000, Some((1920, 1080))),
                    ],
                    Some(template(Some(Vec::new()))),
                ),
                set(
                    "audio",
                    vec![representation("a64", 64_000, None), representation("a128", 128_000, None)],
                    Some(template(Some(Vec::new()))),
                ),
            ],
        }],
        duration_ms: None,
        dynamic: false,
    };
    let m = manifest_from_mpd(&mpd, "u");
    let (v, a) = select_best_quality(&m, &options()).unwrap();
    assert_eq!(v.unwrap().id, "v1080");
    assert_eq!(a.unwrap().id, "a128");
    let mut o = options();
    o.audio_only = true;
    let (v, a) = select_best_quality(&m, &o).unwrap();
    assert!(v.is_none());
    assert_eq!(a.unwrap().id, "a128");
    let mut o = options();
    o.video_only = true;
    o.max_resolution = Some((1280, 720));
    let (v, a) = select_best_quality(&m, &o).unwrap();
    assert_eq!(v.unwrap().id, "v360");
    assert!(a.is_none());
    let mut o = options();
    o.video_only = true;
    o.audio_only = true;
    assert!(matches!(select_best_quality(&m, &o), Err(StreamingError::NoSuitableRendition)));
}

#[test]
fn durations_are_read_in_milliseconds() {
    assert_eq!(parse_duration_ms("PT1M30.5S"), Some(90_500));
    assert_eq!(parse_duration_ms("PT0S"), Some(0));
    assert_eq!(parse_duration_ms("PT634.566S"), Some(634_566));
    assert_eq!(parse_duration_ms("PT1.0019S"), Some(1_001));
    assert_eq!(parse_duration_ms("PT0.05S"), Some(50));
    assert_eq!(parse_duration_ms("P1DT2H"), Some(93_600_000));
    assert_eq!(parse_duration_ms("P2D"), Some(172_800_000));
    assert_eq!(parse_duration_ms("PT2H3M4S"), Some(7_384_000));
    assert_eq!(parse_duration_ms("PT90M"), Some(5_400_000));
    assert_eq!(parse_duration_ms("P"), Some(0));
    assert_eq!(parse_duration_ms("PT"), Some(0));
    assert_eq!(parse_duration_ms("PT18446744073709551S"), Some(18_446_744_073_709_551_000));
    assert_eq!(parse_duration_ms("PT18446744073709552S"), None);
    assert_eq!(parse_duration_ms("PT99999999999999999999S"), None);
    for bad in ["", "T1S", "P1Y", "P1M", "P1W", "PT1S ", " PT1S", "PT1", "PT.5S", "PT1.S", "PT1M2H", "PT-1S", "pt1s", "P1DT1D", "PT1S2S"] {
        assert_eq!(parse_duration_ms(bad), None, "{:?}", bad);
    }
}

#[test]
fn documents_take_their_attributes() {
    let s = |x: &str| Some(x.to_string());
    let d = MpdDocument::from_attributes(Vec::new(), &s("PT10S"), &s("static"), &None);
    assert_eq!(d.duration_ms, Some(10_000));
    assert!(!d.dynamic);
    let d = MpdDocument::from_attributes(Vec::new(), &None, &s("dynamic"), &None);
    assert_eq!(d.duration_ms, None);
    assert!(d.dynamic);
    let d = MpdDocument::from_attributes(
        Vec::new(),
        &s("soon"),
        &None,
        &s("urn:mpeg:dash:profile:isoff-live:2011,urn:x:dynamic:1"),
    );
    assert_eq!(d.duration_ms, None);
    assert!(d.dynamic);
    let d = MpdDocument::from_attributes(Vec::new(), &None, &None, &s("urn:mpeg:dash:profile:isoff-live:2011"));
    assert!(!d.dynamic);
}
