use std::io::Write;
use autosight::provider::DownloadResult;
use autosight::registry::ProviderRegistry;
use autosight::session::{DownloadSession, Reply, Request};

fn page_url(r: &Request) -> String {
    match r {
        Request::FetchPage(u) => u.clone(),
        _ => panic!("expected a page request"),
    }
}

#[test]
fn koizumi_download_with_fallback() {
    let registry = ProviderRegistry::new();
    let p = registry.provider_at(0);
    let (mut s, first) = DownloadSession::start(p, "AD12345", Some("DALI調光電源：XE92701"), "/tmp/x/temp_1.ies");
    assert_eq!(
        page_url(&first),
        "https://webcatalog.koizumi-lt.co.jp/kensaku/item/detail/?itemid=AD12345%2BXE92701"
    );
    let second = s.resume(p, Reply::Page("no link".to_string()));
    assert_eq!(page_url(&second), "https://webcatalog.koizumi-lt.co.jp/kensaku/item/detail/?itemid=AD12345");
    let fetch = s.resume(p, Reply::Page("/kensaku/download/file/file_type/haikou_data/id/42".to_string()));
    match fetch {
        Request::FetchFile(u) => {
            assert_eq!(u, "https://webcatalog.koizumi-lt.co.jp/kensaku/download/file/file_type/haikou_data/id/42")
        }
        _ => panic!("expected a file request"),
    }
    let read = s.resume(
        p,
        Reply::Head {
            ok: true,
            status: "200 OK".to_string(),
            content_disposition: Some("attachment; filename=\"AD12345+XE92701.ies\"".to_string()),
        },
    );
    assert!(matches!(read, Request::ReadBody));
    match s.resume(p, Reply::Body(vec![1, 2, 3])) {
        Request::Save { path, bytes } => {
            assert_eq!(path, "/tmp/x/temp_1.ies");
            assert_eq!(bytes, vec![1, 2, 3]);
        }
        _ => panic!("expected a save"),
    }
    match s.resume(p, Reply::Saved) {
        Request::Finished(Ok(d)) => {
            assert_eq!(d, DownloadResult::success("/tmp/x/temp_1.ies".to_string(), 3, Some("AD12345+XE92701.ies".to_string())));
        }
        _ => panic!("expected success"),
    }
}

#[test]
fn koizumi_not_found_after_fallback_is_a_soft_failure() {
    let registry = ProviderRegistry::new();
    let p = registry.provider_at(0);
    let (mut s, _) = DownloadSession::start(p, "AD1", Some("電源：XE9"), "d");
    s.resume(p, Reply::Page(String::new()));
    match s.resume(p, Reply::Page(String::new())) {
        Request::Finished(Ok(d)) => {
            assert!(!d.success);
            assert_eq!(d.error.as_deref(), Some("IES file not found for: AD1+XE9 nor AD1"));
        }
        _ => panic!("expected a failure"),
    }
    let (mut s, _) = DownloadSession::start(p, "AD1", None, "d");
    match s.resume(p, Reply::Page(String::new())) {
        Request::Finished(Ok(d)) => assert_eq!(d.error.as_deref(), Some("IES file not available for: AD1")),
        _ => panic!("expected a failure"),
    }
}

#[test]
fn koizumi_status_and_transport_errors() {
    let registry = ProviderRegistry::new();
    let p = registry.provider_at(0);
    let (mut s, _) = DownloadSession::start(p, "AD1", None, "d");
    match s.resume(p, Reply::SendFailed("offline".to_string())) {
        Request::Finished(Err(e)) => assert_eq!(e, "Detail request failed: offline"),
        _ => panic!("expected an error"),
    }
    let (mut s, _) = DownloadSession::start(p, "AD1", None, "d");
    s.resume(p, Reply::Page("/kensaku/download/file/file_type/haikou_data/id/1".to_string()));
    match s.resume(p, Reply::Head { ok: false, status: "404 Not Found".to_string(), content_disposition: None }) {
        Request::Finished(Ok(d)) => {
            assert!(d.is_well_formed());
            assert_eq!(d.error.as_deref(), Some("Download failed with status: 404 Not Found"));
        }
        _ => panic!("expected a failure"),
    }
}

#[test]
fn save_errors_are_hard_errors() {
    let registry = ProviderRegistry::new();
    let p = registry.provider_at(0);
    let (mut s, _) = DownloadSession::start(p, "AD1", None, "d");
    s.resume(p, Reply::Page("/kensaku/download/file/file_type/haikou_data/id/1".to_string()));
    s.resume(p, Reply::Head { ok: true, status: "200 OK".to_string(), content_disposition: None });
    s.resume(p, Reply::Body(vec![]));
    match s.resume(p, Reply::WriteFailed("disk full".to_string())) {
        Request::Finished(Err(e)) => assert_eq!(e, "Failed to write file: disk full"),
        _ => panic!("expected an error"),
    }
}

#[test]
fn unexpected_reply_ends_the_download() {
    let registry = ProviderRegistry::new();
    let p = registry.provider_at(0);
    let (mut s, _) = DownloadSession::start(p, "AD1", None, "d");
    match s.resume(p, Reply::Saved) {
        Request::Finished(Err(e)) => assert_eq!(e, "Unexpected reply for this step of the download"),
        _ => panic!("expected an error"),
    }
}

#[test]
fn tokistar_download_of_a_broken_archive() {
    let registry = ProviderRegistry::new();
    let p = registry.provider_at(1);
    let (mut s, first) = DownloadSession::start(p, "OSP01-30K", Some("ignored"), "d");
    assert_eq!(page_url(&first), "https://toki.co.jp/tokistar/download01/?freeword=OSP01");
    match s.resume(p, Reply::Page(String::new())) {
        Request::Finished(Ok(d)) => assert_eq!(d.error.as_deref(), Some("IES file not found for: OSP01")),
        _ => panic!("expected a failure"),
    }
    let (mut s, _) = DownloadSession::start(p, "OSP01-30K", None, "d");
    s.resume(p, Reply::Page("href=\"https://x/IES_OSP.zip\"".to_string()));
    match s.resume(p, Reply::Head { ok: false, status: "500".to_string(), content_disposition: None }) {
        Request::Finished(Ok(d)) => assert_eq!(d.error.as_deref(), Some("ZIP download failed with status: 500")),
        _ => panic!("expected a failure"),
    }
    let (mut s, _) = DownloadSession::start(p, "OSP01-30K", None, "d");
    s.resume(p, Reply::Page("href=\"https://x/IES_OSP.zip\"".to_string()));
    s.resume(p, Reply::Head { ok: true, status: "200".to_string(), content_disposition: None });
    match s.resume(p, Reply::Body(vec![0, 1])) {
        Request::Finished(Err(e)) => assert!(e.starts_with("Failed to open ZIP: ")),
        _ => panic!("expected an error"),
    }
}

fn stored_zip(entries: &[(&str, &[u8])]) -> Vec<u8> {
    let mut w = zip::ZipWriter::new(std::io::Cursor::new(Vec::new()));
    let options = zip::write::SimpleFileOptions::default().compression_method(zip::CompressionMethod::Stored);
    for (name, data) in entries {
        w.start_file(*name, options).unwrap();
        Write::write_all(&mut w, data).unwrap();
    }
    w.finish().unwrap().into_inner()
}

#[test]
fn tokistar_download_extracts_the_best_entry() {
    let registry = ProviderRegistry::new();
    let p = registry.provider_at(1);
    let (mut s, _) = DownloadSession::start(p, "OSP01-30K-30D-B-TB", Some("PSU"), "out/temp_5.ies");
    let html = "<a href=\"https://toki.co.jp/tokistar/wp-content/uploads/2024/01/IES_OSP.zip\">";
    match s.resume(p, Reply::Page(html.to_string())) {
        Request::FetchFile(u) => assert_eq!(u, "https://toki.co.jp/tokistar/wp-content/uploads/2024/01/IES_OSP.zip"),
        _ => panic!("expected a file request"),
    }
    assert!(matches!(
        s.resume(p, Reply::Head { ok: true, status: "200 OK".to_string(), content_disposition: None }),
        Request::ReadBody
    ));
    let zip = stored_zip(&[
        ("IES_OSP/OSP01_27K.ies", b"a"),
        ("IES_OSP/OSP01_30K_30D.ies", b"best"),
        ("IES_OSP/OSP01.ies", b"c"),
    ]);
    match s.resume(p, Reply::Body(zip)) {
        Request::Save { path, bytes } => {
            assert_eq!(path, "out/temp_5.ies");
            assert_eq!(bytes, b"best".to_vec());
        }
        _ => panic!("expected a save"),
    }
    match s.resume(p, Reply::Saved) {
        Request::Finished(Ok(d)) => {
            assert!(d.success);
            assert_eq!(d.file_size, Some(4));
            assert_eq!(d.original_filename.as_deref(), Some("OSP01_30K_30D.ies"));
            assert_eq!(d.file_path.as_deref(), Some("out/temp_5.ies"));
        }
        _ => panic!("expected success"),
    }
}

#[test]
fn tokistar_archive_without_match_is_a_soft_failure() {
    let registry = ProviderRegistry::new();
    let p = registry.provider_at(1);
    let (mut s, _) = DownloadSession::start(p, "XYZ999", None, "d");
    s.resume(p, Reply::Page("href=\"https://x/IES_X.zip\"".to_string()));
    s.resume(p, Reply::Head { ok: true, status: "200 OK".to_string(), content_disposition: None });
    match s.resume(p, Reply::Body(stored_zip(&[("ABC123.ies", b"a")]))) {
        Request::Finished(Ok(d)) => {
            assert!(!d.success);
            assert_eq!(d.error.as_deref(), Some("No matching .ies file found for: XYZ999"));
        }
        _ => panic!("expected a failure"),
    }
}
