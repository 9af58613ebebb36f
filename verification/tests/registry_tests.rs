use nextdownloader::content_type::ContentType;
use nextdownloader::downloader::{progress_permille, remaining_seconds, DownloadStatus};
use nextdownloader::error::{detect_content_type, DownloaderError};
use nextdownloader::registry::DownloadRegistry;

fn registry() -> DownloadRegistry {
    let mut r = DownloadRegistry::new();
    r.register("task_1".to_string(), "https://example.com/file1.mp4", "/tmp/a".to_string()).unwrap();
    r.register("task_2".to_string(), "https://example.com/live.m3u8", "/tmp/b".to_string()).unwrap();
    r
}

#[test]
fn registered_downloads_start_initializing() {
    let r = registry();
    assert_eq!(r.tasks().len(), 2);
    assert_eq!(r.tasks()[0].id, "task_1");
    assert_eq!(r.tasks()[0].content_type, ContentType::MP4);
    assert_eq!(r.tasks()[1].content_type, ContentType::HLS);
    assert_eq!(r.tasks()[1].destination, "/tmp/b");
    assert_eq!(r.status("task_1"), Some(DownloadStatus::Initializing));
    assert_eq!(r.status("task_3"), None);
}

#[test]
fn bad_urls_and_taken_ids_are_refused() {
    let mut r = registry();
    let bad = r.register("task_3".to_string(), "ftp://example.com/x", "/tmp/c".to_string());
    assert!(matches!(bad, Err(DownloaderError::InvalidUrl(_))));
    let taken = r.register("task_1".to_string(), "https://example.com/x", "/tmp/c".to_string());
    assert!(matches!(taken, Err(DownloaderError::UnknownError(_))));
    assert_eq!(r.tasks().len(), 2);
}

#[test]
fn cancel_pause_and_resume_set_the_status() {
    let mut r = registry();
    r.pause_download("task_1").unwrap();
    assert_eq!(r.status("task_1"), Some(DownloadStatus::Paused));
    assert_eq!(r.status("task_2"), Some(DownloadStatus::Initializing));
    r.resume_download("task_1").unwrap();
    assert_eq!(r.status("task_1"), Some(DownloadStatus::Downloading));
    r.cancel_download("task_2").unwrap();
    assert_eq!(r.status("task_2"), Some(DownloadStatus::Cancelled));
    r.set_status("task_1", DownloadStatus::Completed).unwrap();
    assert_eq!(r.status("task_1"), Some(DownloadStatus::Completed));
    assert_eq!(r.tasks()[0].url, "https://example.com/file1.mp4");
    assert!(matches!(r.cancel_download("nobody"), Err(DownloaderError::UnknownError(_))));
    assert!(matches!(r.pause_download(""), Err(DownloaderError::UnknownError(_))));
    assert!(matches!(r.resume_download("task_"), Err(DownloaderError::UnknownError(_))));
    assert_eq!(r.tasks().len(), 2);
}

#[test]
fn transfer_estimates() {
    assert_eq!(remaining_seconds(1000, 400, 100), Some(6));
    assert_eq!(remaining_seconds(1000, 1000, 100), Some(0));
    assert_eq!(remaining_seconds(1000, 1001, 100), None);
    assert_eq!(remaining_seconds(1000, 0, 0), None);
    assert_eq!(remaining_seconds(999, 0, 1000), Some(0));
    assert_eq!(progress_permille(0, Some(10)), 0);
    assert_eq!(progress_permille(5, Some(10)), 500);
    assert_eq!(progress_permille(1, Some(3)), 333);
    assert_eq!(progress_permille(10, Some(10)), 1000);
    assert_eq!(progress_permille(11, Some(10)), 1000);
    assert_eq!(progress_permille(5, Some(0)), 0);
    assert_eq!(progress_permille(5, None), 0);
    assert_eq!(progress_permille(u64::MAX - 1, Some(u64::MAX)), 999);
}

#[test]
fn progress_is_kept_per_download() {
    let mut r = registry();
    assert_eq!(r.get_download_progress("task_1").unwrap(), 0);
    r.set_progress("task_1", 750).unwrap();
    r.set_progress("task_2", 5000).unwrap();
    assert_eq!(r.get_download_progress("task_1").unwrap(), 750);
    assert_eq!(r.get_download_progress("task_2").unwrap(), 1000);
    assert_eq!(r.status("task_1"), Some(DownloadStatus::Initializing));
    assert!(matches!(r.set_progress("nobody", 1), Err(DownloaderError::UnknownError(_))));
}

#[test]
fn test_error_handling() {
    let mut download_manager = DownloadRegistry::new();
    let invalid_id = "non-existent-id";
    match download_manager.get_download_progress(invalid_id) {
        Ok(_) => panic!("Expected error for invalid download ID, but got success"),
        Err(e) => assert!(matches!(e, DownloaderError::UnknownError(_))),
    }
    match download_manager.cancel_download(invalid_id) {
        Ok(_) => panic!("Expected error for invalid download ID, but got success"),
        Err(e) => assert!(matches!(e, DownloaderError::UnknownError(_))),
    }
}

#[test]
fn downloader_tests_test_content_type_detection() {
    let test_cases = vec![
        ("https://example.com/video.mp4", ContentType::MP4),
        ("https://example.com/stream.m3u8", ContentType::HLS),
        ("https://example.com/manifest.mpd", ContentType::DASH),
        ("https://www.youtube.com/watch?v=dQw4w9WgXcQ", ContentType::YouTube),
        ("https://example.com/unknown", ContentType::Unknown),
    ];
    for (url, expected_type) in test_cases {
        assert_eq!(ContentType::detect_from_url(url), expected_type);
        assert_eq!(detect_content_type(url).unwrap(), expected_type);
    }
}

#[test]
fn test_uniffi_test_content_type_detection() {
    let valid_url = "https://example.com/video.mp4";
    match detect_content_type(valid_url) {
        Ok(content_type) => assert_eq!(content_type, ContentType::MP4),
        Err(e) => panic!("Failed to detect content type for valid URL: {:?}", e),
    }
    let invalid_url = "";
    match detect_content_type(invalid_url) {
        Ok(_) => panic!("Expected error for invalid URL, but got success"),
        Err(e) => assert!(matches!(e, DownloaderError::InvalidUrl(_))),
    }
}
