use cdda_cat::download::{DownloadError, DownloadInfo, Progress, ProgressBarInfo};
use cdda_cat::github_client::{GithubClient, API_ROOT};

#[test]
fn progress_starts_at_zero() {
    let progress = Progress::new(100);
    assert_eq!(progress.get_total(), 100);
    assert_eq!(progress.get_position(), 0);
}

#[test]
fn progress_adds_what_was_done() {
    let mut progress = Progress::new(100);
    assert_eq!(progress.advance(30), 30);
    assert_eq!(progress.advance(0), 30);
    assert_eq!(progress.advance(69), 99);
    assert_eq!(progress.get_position(), 99);
    assert_eq!(progress.advance(1), 100);
    assert_eq!(progress.get_total(), 100);
}

#[test]
fn progress_stops_at_the_total() {
    let mut progress = Progress::new(10);
    assert_eq!(progress.advance(7), 7);
    assert_eq!(progress.advance(7), 10);
    assert_eq!(progress.advance(1), 10);
    assert_eq!(progress.advance(u64::MAX), 10);
    let mut nothing = Progress::new(0);
    assert_eq!(nothing.advance(5), 0);
    let mut huge = Progress::new(u64::MAX);
    assert_eq!(huge.advance(u64::MAX - 1), u64::MAX - 1);
    assert_eq!(huge.advance(2), u64::MAX);
}

#[test]
fn entries_are_counted_one_by_one() {
    let mut progress = Progress::new(3);
    assert_eq!(progress.advance(1), 1);
    assert_eq!(progress.advance(1), 2);
    assert_eq!(progress.advance(1), 3);
    assert_eq!(progress.advance(1), 3);
}

#[test]
fn a_download_needs_a_content_length() {
    let info = DownloadInfo::new("https://example.org/a.tar.gz", "/tmp/a.tar.gz".to_string());
    assert_eq!(info.url, "https://example.org/a.tar.gz");
    assert_eq!(info.filepath, "/tmp/a.tar.gz");
    match info.begin(Some(4096)) {
        Ok(progress) => {
            assert_eq!(progress.get_total(), 4096);
            assert_eq!(progress.get_position(), 0);
        }
        Err(_) => panic!("a known length starts the download"),
    }
    match info.begin(None) {
        Ok(_) => panic!("an unknown length does not start the download"),
        Err(error) => assert_eq!(error, DownloadError::MissingContentLength),
    }
}

#[test]
fn a_download_is_needed_only_for_a_missing_file() {
    let info = DownloadInfo::new("u", "f".to_string());
    assert!(info.is_needed(false));
    assert!(!info.is_needed(true));
}

#[test]
fn download_failures_are_worded() {
    let info = DownloadInfo::new("https://example.org/a.tar.gz", "/tmp/a.tar.gz".to_string());
    assert_eq!(
        info.failure_message(DownloadError::RequestFailed),
        "Failed to GET from 'https://example.org/a.tar.gz'"
    );
    assert_eq!(
        info.failure_message(DownloadError::MissingContentLength),
        "Failed to get content length from 'https://example.org/a.tar.gz'"
    );
    assert_eq!(
        info.failure_message(DownloadError::FileNotCreated),
        "Failed to create file '/tmp/a.tar.gz'"
    );
    assert_eq!(info.failure_message(DownloadError::StreamFailed), "Error while downloading file");
    assert_eq!(info.failure_message(DownloadError::WriteFailed), "Error while writing to file");
}

#[test]
fn progress_bar_messages() {
    let info = ProgressBarInfo::new("before", "after");
    assert_eq!(info.pre_message, "before");
    assert_eq!(info.post_message, "after");
    let download = DownloadInfo::new("https://example.org/a.tar.gz", "/tmp/a.tar.gz".to_string());
    let info = ProgressBarInfo::for_download(&download);
    assert_eq!(info.pre_message, "Downloading from https://example.org/a.tar.gz");
    assert_eq!(
        info.post_message,
        "Finished downloading from https://example.org/a.tar.gz to /tmp/a.tar.gz"
    );
}

#[test]
fn release_address_names_owner_repository_and_tag() {
    let client = GithubClient::new("CleverRaven", "Cataclysm-DDA");
    assert_eq!(
        client.release_url("0.G"),
        "https://api.github.com/repos/CleverRaven/Cataclysm-DDA/releases/tags/0.G"
    );
    assert_eq!(
        GithubClient::new("a", "b").release_url(""),
        "https://api.github.com/repos/a/b/releases/tags/"
    );
    assert_eq!(API_ROOT, "https://api.github.com/repos");
}
