use hamid_mahdavi_client::download::{content_length, is_success_status, DownloadProgress, REPORT_EVERY};
use hamid_mahdavi_client::project::entry_relative_path;

#[test]
fn success_is_2xx() {
    assert!(!is_success_status(199));
    assert!(is_success_status(200));
    assert!(is_success_status(204));
    assert!(is_success_status(299));
    assert!(!is_success_status(300));
    assert!(!is_success_status(404));
}

#[test]
fn content_length_reads_u64() {
    assert_eq!(content_length(Some("1234")), Some(1234));
    assert_eq!(content_length(Some("+7")), Some(7));
    assert_eq!(content_length(Some("0")), Some(0));
    assert_eq!(content_length(Some("18446744073709551615")), Some(u64::MAX));
    assert_eq!(content_length(Some("18446744073709551616")), None);
    assert_eq!(content_length(Some("")), None);
    assert_eq!(content_length(Some("+")), None);
    assert_eq!(content_length(Some("-1")), None);
    assert_eq!(content_length(Some(" 12")), None);
    assert_eq!(content_length(Some("12a")), None);
    assert_eq!(content_length(None), None);
}

#[test]
fn progress_is_throttled() {
    assert_eq!(REPORT_EVERY, 256 * 1024);
    let mut p = DownloadProgress::new();
    let chunk = 64 * 1024;
    let mut reports = Vec::new();
    for _ in 0..10 {
        if p.record(chunk) {
            reports.push(p.written);
        }
    }
    // More than 256 KiB must have arrived since the last report.
    assert_eq!(reports, vec![5 * chunk, 10 * chunk]);
    assert_eq!(p.written, 10 * chunk);
    assert_eq!(p.last_report, 10 * chunk);
    let mut q = DownloadProgress::new();
    assert!(!q.record(REPORT_EVERY));
    assert!(q.record(1));
}

#[test]
fn archive_entries_lose_top_directory() {
    assert_eq!(entry_relative_path("mhr-cfw-main/"), None);
    assert_eq!(entry_relative_path("mhr-cfw-main"), None);
    assert_eq!(entry_relative_path("mhr-cfw-main/main.py"), Some("main.py".to_string()));
    assert_eq!(entry_relative_path("mhr-cfw-main/src/a.py"), Some("src/a.py".to_string()));
    assert_eq!(entry_relative_path(r"top\sub\"), Some("sub".to_string()));
    assert_eq!(entry_relative_path("top//x//"), Some("x".to_string()));
    assert_eq!(entry_relative_path(""), None);
}
