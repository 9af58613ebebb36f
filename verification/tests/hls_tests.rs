use nextdownloader::common::{SegmentDuration, StreamingError};
use nextdownloader::hls::{
    manifest_from_master, manifest_from_media, parse_manifest, resolve_uri, HlsManifest,
    RawByteRange, RawMedia, RawSegment, RawVariant,
};

#[test]
fn test_parse_master_playlist() {
    let master_playlist = "#EXTM3U\n#EXT-X-VERSION:3\n#EXT-X-STREAM-INF:BANDWIDTH=1280000,RESOLUTION=640x360\nhttp://example.com/low.m3u8\n#EXT-X-STREAM-INF:BANDWIDTH=2560000,RESOLUTION=854x480\nhttp://example.com/medium.m3u8\n#EXT-X-STREAM-INF:BANDWIDTH=7680000,RESOLUTION=1920x1080\nhttp://example.com/high.m3u8";
    let url = "http://example.com/master.m3u8";
    match parse_manifest(master_playlist, url).unwrap() {
        HlsManifest::Master(master) => {
            assert_eq!(master.variants.len(), 3);
            assert_eq!(master.variants[0].bandwidth, 1280000);
            assert_eq!(master.variants[1].bandwidth, 2560000);
            assert_eq!(master.variants[2].bandwidth, 7680000);
        }
        _ => panic!("Expected master playlist"),
    }
}

#[test]
fn test_parse_media_playlist() {
    let media_playlist = "#EXTM3U\n#EXT-X-VERSION:3\n#EXT-X-TARGETDURATION:10\n#EXT-X-MEDIA-SEQUENCE:0\n#EXTINF:9.009,\nsegment1.ts\n#EXTINF:9.009,\nsegment2.ts\n#EXTINF:9.009,\nsegment3.ts\n#EXTINF:9.009,\nsegment4.ts\n#EXT-X-ENDLIST";
    let url = "http://example.com/playlist.m3u8";
    match parse_manifest(media_playlist, url).unwrap() {
        HlsManifest::Media(media) => {
            assert_eq!(media.segments.len(), 4);
            assert_eq!(media.target_duration, 10);
            assert_eq!(media.version, Some(3));
            assert_eq!(media.sequence_no, 0);
            assert!(!media.is_live);
            assert_eq!(media.segments[0].url, "http://example.com/segment1.ts");
            assert_eq!(media.segments[3].sequence, 3);
        }
        _ => panic!("Expected media playlist"),
    }
}

#[test]
fn master_variants_keep_their_attributes() {
    let text = "#EXTM3U\n#EXT-X-STREAM-INF:BANDWIDTH=1280000,RESOLUTION=640x360,CODECS=\"avc1.4d401e,mp4a.40.2\"\nlow/index.m3u8\n#EXT-X-STREAM-INF:BANDWIDTH=2560000\n/abs/medium.m3u8\n";
    match parse_manifest(text, "http://example.com/live/master.m3u8").unwrap() {
        HlsManifest::Master(master) => {
            assert_eq!(master.url, "http://example.com/live/master.m3u8");
            assert_eq!(master.variants.len(), 2);
            assert_eq!(master.variants[0].url, "http://example.com/live/low/index.m3u8");
            assert_eq!(master.variants[0].resolution, Some((640, 360)));
            assert_eq!(master.variants[0].codec, Some("avc1.4d401e,mp4a.40.2".to_string()));
            assert_eq!(master.variants[1].url, "http://example.com/abs/medium.m3u8");
            assert_eq!(master.variants[1].resolution, None);
            assert_eq!(master.variants[1].codec, None);
        }
        _ => panic!("Expected master playlist"),
    }
}

#[test]
fn media_segments_are_numbered_from_the_media_sequence() {
    let text = "#EXTM3U\n#EXT-X-TARGETDURATION:6\n#EXT-X-MEDIA-SEQUENCE:100\n#EXTINF:5.5,first\n#EXT-X-BYTERANGE:1000@200\nmedia.ts\n#EXTINF:6,\n#EXT-X-BYTERANGE:500\nmedia.ts\n#EXTINF:6,\nhttps://cdn.example.com/other.ts\n";
    match parse_manifest(text, "http://example.com/a/playlist.m3u8").unwrap() {
        HlsManifest::Media(media) => {
            assert!(media.is_live);
            assert_eq!(media.target_duration, 6);
            assert_eq!(media.sequence_no, 100);
            assert_eq!(media.segments.len(), 3);
            assert_eq!(media.segments[0].sequence, 100);
            assert_eq!(media.segments[1].sequence, 101);
            assert_eq!(media.segments[2].sequence, 102);
            assert_eq!(media.segments[0].url, "http://example.com/a/media.ts");
            assert_eq!(media.segments[2].url, "https://cdn.example.com/other.ts");
            assert_eq!(media.segments[0].byte_range, Some((200, 1200)));
            // Without an offset a range starts where the one before ended.
            assert_eq!(media.segments[1].byte_range, Some((1200, 1700)));
            assert_eq!(media.segments[2].byte_range, None);
            assert_eq!(media.segments[0].title, Some("first".to_string()));
            assert_eq!(media.segments[0].duration, SegmentDuration::SecondsBits(5.5f32.to_bits()));
            assert_eq!(media.segments[1].duration, SegmentDuration::SecondsBits(6f32.to_bits()));
            assert!(media.segments.iter().all(|s| !s.is_initialization));
        }
        _ => panic!("Expected media playlist"),
    }
}

#[test]
fn text_that_is_no_playlist_is_a_parse_error() {
    for text in ["", "not a playlist", "<html></html>", "EXTM3U"] {
        let r = parse_manifest(text, "http://example.com/playlist.m3u8");
        assert!(matches!(r, Err(StreamingError::ManifestParseError(_))), "{:?}", text);
    }
}

#[test]
fn uris_resolve_against_the_playlist() {
    let base = "http://example.com/a/b/playlist.m3u8";
    assert_eq!(resolve_uri(base, "seg.ts"), Some("http://example.com/a/b/seg.ts".to_string()));
    assert_eq!(resolve_uri(base, "../seg.ts"), Some("http://example.com/a/seg.ts".to_string()));
    assert_eq!(resolve_uri(base, "/seg.ts?x=1"), Some("http://example.com/seg.ts?x=1".to_string()));
    assert_eq!(resolve_uri(base, "//cdn/seg.ts"), Some("http://cdn/seg.ts".to_string()));
    // What begins with "http" is taken as it stands, valid or not.
    assert_eq!(resolve_uri("no base", "http://x/seg.ts"), Some("http://x/seg.ts".to_string()));
    assert_eq!(resolve_uri(base, "httpfoo"), Some("httpfoo".to_string()));
    assert_eq!(resolve_uri("no base", "seg.ts"), None);
    assert_eq!(resolve_uri("", "seg.ts"), None);
}

fn raw_segment(uri: &str, byte_range: Option<RawByteRange>) -> RawSegment {
    RawSegment { uri: uri.to_string(), duration_bits: 0, title: None, byte_range }
}

fn raw_media(segments: Vec<RawSegment>, media_sequence: u64) -> RawMedia {
    RawMedia { segments, target_duration: 4, version: Some(7), media_sequence, end_list: true }
}

#[test]
fn unresolvable_uris_and_urls_fail_the_playlist() {
    let variants = vec![RawVariant {
        uri: "low.m3u8".to_string(),
        bandwidth: 1,
        resolution: None,
        codecs: None,
    }];
    let r = manifest_from_master("not a url", variants);
    assert!(matches!(r, Err(StreamingError::ManifestParseError(_))));
    assert!(matches!(manifest_from_master("not a url", Vec::new()), Ok(HlsManifest::Master(_))));
    let absolute = vec![raw_segment("http://example.com/s.ts", None)];
    let r = manifest_from_media("not a url", raw_media(absolute, 0));
    assert!(matches!(r, Err(StreamingError::ManifestParseError(_))));
    let r = manifest_from_media("not a url", raw_media(Vec::new(), 0));
    assert!(matches!(r, Err(StreamingError::ManifestParseError(_))));
}

#[test]
fn entries_that_cannot_be_numbered_are_skipped() {
    let range = |length, offset| Some(RawByteRange { length, offset });
    let segments = vec![
        raw_segment("a.ts", range(10, Some(u64::MAX - 10))),
        raw_segment("b.ts", range(1, None)),
        raw_segment("c.ts", range(5, None)),
        raw_segment("d.ts", None),
    ];
    match manifest_from_media("http://h/p.m3u8", raw_media(segments, 0)).unwrap() {
        HlsManifest::Media(m) => {
            let urls: Vec<&str> = m.segments.iter().map(|s| s.url.as_str()).collect();
            // The range of b would end beyond 64 bits; c starts anew.
            assert_eq!(urls, ["http://h/a.ts", "http://h/c.ts", "http://h/d.ts"]);
            assert_eq!(m.segments[0].byte_range, Some((u64::MAX - 10, u64::MAX)));
            assert_eq!(m.segments[1].byte_range, Some((0, 5)));
            assert_eq!(m.segments[1].sequence, 2);
            assert_eq!(m.segments[2].sequence, 3);
            assert_eq!(m.version, Some(7));
            assert!(!m.is_live);
        }
        _ => panic!("Expected media playlist"),
    }
    let late = vec![raw_segment("a.ts", None), raw_segment("b.ts", None), raw_segment("c.ts", None)];
    match manifest_from_media("http://h/p.m3u8", raw_media(late, u64::MAX - 1)).unwrap() {
        HlsManifest::Media(m) => {
            assert_eq!(m.segments.len(), 2);
            assert_eq!(m.segments[1].sequence, u64::MAX);
        }
        _ => panic!("Expected media playlist"),
    }
}
