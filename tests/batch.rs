use autosight::batch::{BatchDownloadItem, BatchDownloadRequest, BatchEvent, BatchRun, Work};
use autosight::provider::DownloadResult;
use autosight::registry::ProviderRegistry;

fn item(spec: &str, maker: &str, model: &str) -> BatchDownloadItem {
    BatchDownloadItem {
        spec_no: spec.to_string(),
        manufacturer: maker.to_string(),
        model_number: model.to_string(),
        psu: None,
    }
}

#[test]
fn batch_with_unknown_maker_in_the_middle() {
    let registry = ProviderRegistry::new();
    let request = BatchDownloadRequest {
        items: vec![item("1", "コイズミ照明", "AD1"), item("2", "大光電機", "DD2"), item("3", "TOKISTAR", "OSP01-30K")],
        dest_dir: "/out".to_string(),
    };
    let (mut run, step) = BatchRun::start(&registry, request);
    let mut notices = step.notices;
    let mut work = step.work;
    let mut renames = Vec::new();
    loop {
        let event = match work {
            Work::Download { provider: _, model_number: _, psu: _, dest_path } => {
                BatchEvent::Downloaded(Ok(DownloadResult::success(dest_path, 10, None)))
            }
            Work::Rename { from, to } => {
                renames.push((from, to));
                BatchEvent::Renamed(Ok(()))
            }
            Work::Finish => break,
        };
        let step = run.step(event);
        notices.extend(step.notices);
        work = step.work;
    }
    let result = run.into_result();
    assert_eq!(result.success_count, 2);
    assert_eq!(result.failure_count, 1);
    assert_eq!(result.results.len(), 3);
    let specs: Vec<&str> = result.results.iter().map(|r| r.spec_no.as_str()).collect();
    assert_eq!(specs, vec!["1", "2", "3"]);
    assert_eq!(result.results[1].result.error.as_deref(), Some("No provider for: 大光電機"));
    assert!(result.results[0].result.success && result.results[2].result.success);
    assert_eq!(result.results[0].result.file_path.as_deref(), Some("/out/1_AD1.ies"));
    assert_eq!(result.results[2].result.file_path.as_deref(), Some("/out/3_OSP01-30K.ies"));
    assert_eq!(
        renames,
        vec![
            ("/out/temp_1.ies".to_string(), "/out/1_AD1.ies".to_string()),
            ("/out/temp_3.ies".to_string(), "/out/3_OSP01-30K.ies".to_string()),
        ]
    );
    let statuses: Vec<(String, String)> = notices.iter().map(|n| (n.spec_no.clone(), n.status.clone())).collect();
    let expected: Vec<(String, String)> = [
        ("1", "processing"),
        ("1", "success"),
        ("2", "processing"),
        ("2", "error"),
        ("3", "processing"),
        ("3", "success"),
    ]
    .iter()
    .map(|(a, b)| (a.to_string(), b.to_string()))
    .collect();
    assert_eq!(statuses, expected);
    assert_eq!(notices[3].error.as_deref(), Some("No provider for: 大光電機"));
    assert_eq!(notices[1].error, None);
}

#[test]
fn failures_do_not_stop_the_batch() {
    let registry = ProviderRegistry::new();
    let request = BatchDownloadRequest {
        items: vec![item("a", "koizumi", "X1"), item("b", "koizumi", "X2"), item("c", "koizumi", "X3")],
        dest_dir: "d".to_string(),
    };
    let (mut run, step) = BatchRun::start(&registry, request);
    assert!(matches!(step.work, Work::Download { .. }));
    let s = run.step(BatchEvent::Downloaded(Err("Detail request failed: x".to_string())));
    assert!(matches!(s.work, Work::Download { .. }));
    let s = run.step(BatchEvent::Downloaded(Ok(DownloadResult::success("d/temp_b.ies".to_string(), 1, Some("X2_Y.ies".to_string())))));
    match s.work {
        Work::Rename { from, to } => {
            assert_eq!(from, "d/temp_b.ies");
            assert_eq!(to, "d/b_X2_Y.ies");
        }
        _ => panic!("expected a rename"),
    }
    let s = run.step(BatchEvent::Renamed(Err("permission denied".to_string())));
    assert!(matches!(s.work, Work::Download { .. }));
    let s = run.step(BatchEvent::Downloaded(Ok(DownloadResult::failure("IES file not available for: X3".to_string()))));
    assert!(matches!(s.work, Work::Finish));
    let progress = run.progress();
    assert_eq!((progress.current, progress.total, progress.success_count, progress.failure_count), (3, 3, 0, 3));
    let result = run.into_result();
    assert_eq!(result.results[0].result.error.as_deref(), Some("Detail request failed: x"));
    assert_eq!(result.results[1].result.error.as_deref(), Some("Failed to rename file: permission denied"));
    assert_eq!(result.results[2].result.error.as_deref(), Some("IES file not available for: X3"));
    for r in &result.results {
        assert!(r.result.is_well_formed());
    }
}

#[test]
fn empty_batch_finishes_at_once() {
    let registry = ProviderRegistry::new();
    let (run, step) = BatchRun::start(&registry, BatchDownloadRequest { items: vec![], dest_dir: "d".to_string() });
    assert!(matches!(step.work, Work::Finish));
    assert!(step.notices.is_empty());
    let result = run.into_result();
    assert_eq!((result.success_count, result.failure_count, result.results.len()), (0, 0, 0));
}

#[test]
fn batch_paths() {
    assert_eq!(BatchRun::temp_path("/out", "12"), "/out/temp_12.ies");
    assert_eq!(BatchRun::path_in("/out", "12_A.ies"), "/out/12_A.ies");
}

#[test]
fn failed_download_is_not_moved() {
    let registry = ProviderRegistry::new();
    let request = BatchDownloadRequest { items: vec![item("a", "koizumi", "X1")], dest_dir: "d".to_string() };
    let (mut run, _) = BatchRun::start(&registry, request);
    let s = run.step(BatchEvent::Downloaded(Ok(DownloadResult::failure("IES file not available for: X1".to_string()))));
    assert!(matches!(s.work, Work::Finish));
    assert_eq!(s.notices.len(), 1);
    assert_eq!(s.notices[0].status, "error");
}

#[test]
fn consecutive_unknown_makers_are_each_announced() {
    let registry = ProviderRegistry::new();
    let request = BatchDownloadRequest {
        items: vec![item("a", "X", "1"), item("b", "Y", "2"), item("c", "koizumi", "3")],
        dest_dir: "d".to_string(),
    };
    let (_, step) = BatchRun::start(&registry, request);
    let got: Vec<(String, String)> = step.notices.iter().map(|n| (n.spec_no.clone(), n.status.clone())).collect();
    let want: Vec<(String, String)> = [("a", "processing"), ("a", "error"), ("b", "processing"), ("b", "error"), ("c", "processing")]
        .iter()
        .map(|(x, y)| (x.to_string(), y.to_string()))
        .collect();
    assert_eq!(got, want);
    assert!(matches!(step.work, Work::Download { provider: 0, .. }));
}
