use std::io::Write;
use autosight::provider::{FetchError, ManufacturerProvider};
use autosight::tokistar::{TokistarProvider, Unpacked};

#[test]
fn tokistar_test_can_handle() {
    let provider = TokistarProvider::new();
    assert!(provider.can_handle("TOKISTAR"));
    assert!(provider.can_handle("tokistar"));
    assert!(provider.can_handle("Tokistar"));
    assert!(provider.can_handle("TokiStar"));
    assert!(provider.can_handle("トキスター"));
    assert!(!provider.can_handle("コイズミ照明"));
    assert!(!provider.can_handle("大光電機"));
}

#[test]
fn test_extract_partial_fixture_id() {
    assert_eq!(TokistarProvider::extract_partial_fixture_id("OSP01-30K-30D-B-TB"), "OSP01");
    assert_eq!(TokistarProvider::extract_partial_fixture_id("CS18S-EM"), "CS18S");
    assert_eq!(TokistarProvider::extract_partial_fixture_id("MRD01"), "MRD01");
}

#[test]
fn partial_fixture_id_edges() {
    assert_eq!(TokistarProvider::extract_partial_fixture_id(""), "");
    assert_eq!(TokistarProvider::extract_partial_fixture_id("-A"), "");
}

#[test]
fn test_common_prefix_length() {
    assert_eq!(TokistarProvider::common_prefix_length("OSP01_30K", "OSP01_30K_30D"), 9);
    assert_eq!(TokistarProvider::common_prefix_length("OSP01_30K_30D", "OSP01_27K"), 6);
    assert_eq!(TokistarProvider::common_prefix_length("ABC", "XYZ"), 0);
    assert_eq!(TokistarProvider::common_prefix_length("", "OSP01"), 0);
}

#[test]
fn test_select_best_ies_file() {
    let ies_files = vec!["OSP01_27K.ies".to_string(), "OSP01_30K_30D.ies".to_string(), "OSP01.ies".to_string()];
    let result = TokistarProvider::select_best_ies_file("OSP01-30K-30D-B-TB", &ies_files);
    assert_eq!(result, Some("OSP01_30K_30D.ies".to_string()));
    let result = TokistarProvider::select_best_ies_file("OSP01-27K", &ies_files);
    assert_eq!(result, Some("OSP01_27K.ies".to_string()));
    let result = TokistarProvider::select_best_ies_file("OSP01", &ies_files);
    assert!(result.is_some());
}

#[test]
fn test_select_best_ies_file_with_path() {
    let ies_files = vec![
        "IES_OSP/OSP01_27K_15D.ies".to_string(),
        "IES_OSP/OSP01_30K_30D.ies".to_string(),
        "IES_OSP/HL/OSP01_30K-HL_30D_HL.ies".to_string(),
    ];
    let result = TokistarProvider::select_best_ies_file("OSP01-30K-30D", &ies_files);
    assert_eq!(result, Some("IES_OSP/OSP01_30K_30D.ies".to_string()));
    let result = TokistarProvider::select_best_ies_file("OSP01-27K-15D", &ies_files);
    assert_eq!(result, Some("IES_OSP/OSP01_27K_15D.ies".to_string()));
}

#[test]
fn test_select_best_ies_file_no_match() {
    let ies_files = vec!["ABC123.ies".to_string()];
    let result = TokistarProvider::select_best_ies_file("XYZ999", &ies_files);
    assert_eq!(result, None);
}

#[test]
fn selection_ties_go_to_shortest_stem() {
    let ies_files = vec!["OSP01_27K.ies".to_string(), "OSP01_30K_30D.ies".to_string(), "OSP01.ies".to_string()];
    assert_eq!(TokistarProvider::select_best_ies_file("OSP01", &ies_files), Some("OSP01.ies".to_string()));
    let same_len = vec!["B/OSP01.ies".to_string(), "A/OSP01.ies".to_string()];
    assert_eq!(TokistarProvider::select_best_ies_file("OSP01", &same_len), Some("A/OSP01.ies".to_string()));
}

#[test]
fn selection_ignores_candidate_order() {
    let base = ["OSP01_27K.ies", "OSP01_30K_30D.ies", "OSP01.ies", "IES/OSP01_30K.IES"];
    let orders: [[usize; 4]; 6] = [[0, 1, 2, 3], [3, 2, 1, 0], [1, 3, 0, 2], [2, 0, 3, 1], [0, 2, 1, 3], [3, 1, 2, 0]];
    for id in ["OSP01", "OSP01-30K", "OSP01-27K-X", "OSP01-30K-30D-B-TB", "ZZ"] {
        let first: Vec<String> = orders[0].iter().map(|&i| base[i].to_string()).collect();
        let expected = TokistarProvider::select_best_ies_file(id, &first);
        for order in orders.iter() {
            let files: Vec<String> = order.iter().map(|&i| base[i].to_string()).collect();
            assert_eq!(TokistarProvider::select_best_ies_file(id, &files), expected);
        }
    }
}

#[test]
fn selection_of_empty_list_is_none() {
    assert_eq!(TokistarProvider::select_best_ies_file("OSP01", &[]), None);
}

#[test]
fn pick_entry_messages() {
    assert_eq!(TokistarProvider::pick_entry("OSP01", &[]), Err("No .ies files found in ZIP".to_string()));
    let files = vec!["ABC123.ies".to_string()];
    assert_eq!(
        TokistarProvider::pick_entry("XYZ999", &files),
        Err("No matching .ies file found for: XYZ999".to_string())
    );
    assert_eq!(TokistarProvider::pick_entry("ABC", &files), Ok("ABC123.ies".to_string()));
}

#[test]
fn test_generate_filename() {
    let provider = TokistarProvider::new();
    assert_eq!(provider.generate_filename("1001", "OSP01-30K", None, Some("OSP01_30K_30D.ies")), "1001_OSP01_30K_30D.ies");
    assert_eq!(provider.generate_filename("1001", "OSP01-30K", None, Some("OSP01_30K_30D")), "1001_OSP01_30K_30D.ies");
    assert_eq!(provider.generate_filename("1001", "OSP01-30K", None, None), "1001_OSP01-30K.ies");
    assert_eq!(provider.generate_filename("1001", "OSP01", Some("PSU123"), Some("OSP01.ies")), "1001_OSP01.ies");
}

#[test]
fn archive_filename_ignores_accessory() {
    let provider = TokistarProvider::new();
    for original in [None, Some("OSP01_30K.ies"), Some("OSP01_30K")] {
        let plain = provider.generate_filename("1001", "OSP01-30K", None, original);
        let with = provider.generate_filename("1001", "OSP01-30K", Some("XE92701"), original);
        assert_eq!(plain, with);
        assert!(!with.contains("XE92701"));
    }
    assert_eq!(provider.generate_filename("9", "A/B", Some("P"), Some("X.IES")), "9_X.IES");
    assert_eq!(provider.generate_filename("9", "A/B", Some("P"), None), "9_A_B.ies");
}

#[test]
fn search_url_and_archive_link() {
    let provider = TokistarProvider::new();
    assert_eq!(provider.search_page_url("OSP01"), "https://toki.co.jp/tokistar/download01/?freeword=OSP01");
    let html = "<a href=\"https://toki.co.jp/tokistar/wp-content/uploads/2024/01/IES_OSP.zip\">zip</a>";
    assert_eq!(
        TokistarProvider::archive_url_from_page(html),
        Some("https://toki.co.jp/tokistar/wp-content/uploads/2024/01/IES_OSP.zip".to_string())
    );
    assert_eq!(TokistarProvider::archive_url_from_page("<a href=\"/x/pdf.zip\">"), None);
}

#[test]
fn tokistar_product_info() {
    let provider = TokistarProvider::new();
    let html = "<a href=\"https://toki.co.jp/tokistar/wp-content/uploads/2024/01/IES_OSP.zip\">";
    let info = provider.product_info_from_page("OSP01-30K", Ok(html.to_string())).unwrap();
    assert_eq!(info.model_number, "OSP01-30K");
    assert_eq!(info.ies_file_url.as_deref(), Some("https://toki.co.jp/tokistar/wp-content/uploads/2024/01/IES_OSP.zip"));
    assert_eq!(info.product_page_url.as_deref(), Some("https://toki.co.jp/tokistar/download01/?freeword=OSP01"));
    let missing = provider.product_info_from_page("OSP01-30K", Ok("nothing".to_string()));
    assert_eq!(missing, Err("IES file not found for: OSP01".to_string()));
    let err = provider.product_info_from_page("OSP01", Err(FetchError::Send("down".to_string())));
    assert_eq!(err, Err("Search request failed: down".to_string()));
}

#[test]
fn entry_base_name_strips_directories() {
    assert_eq!(TokistarProvider::entry_base_name("IES_OSP/HL/OSP01.ies"), "OSP01.ies");
    assert_eq!(TokistarProvider::entry_base_name("OSP01.ies"), "OSP01.ies");
}

#[test]
fn unpack_rejects_bytes_that_are_no_archive() {
    match TokistarProvider::unpack_archive(vec![1, 2, 3], "OSP01") {
        Unpacked::Broken(m) => assert!(m.starts_with("Failed to open ZIP: ")),
        _ => panic!("expected a broken archive"),
    }
}

fn stored_zip(entries: &[(&str, &[u8])]) -> Vec<u8> {
    let mut w = zip::ZipWriter::new(std::io::Cursor::new(Vec::new()));
    let options = zip::write::SimpleFileOptions::default().compression_method(zip::CompressionMethod::Stored);
    for (name, data) in entries {
        w.start_file(*name, options).unwrap();
        Write::write_all(&mut w, data).unwrap();
    }
    w.finish().unwrap().into_inner()
}

#[test]
fn unpack_picks_best_entry() {
    let bytes = stored_zip(&[
        ("IES_OSP/OSP01_27K.ies", b"27"),
        ("IES_OSP/OSP01_30K_30D.ies", b"30"),
        ("IES_OSP/readme.txt", b"no"),
    ]);
    match TokistarProvider::unpack_archive(bytes, "OSP01-30K-30D-B") {
        Unpacked::Entry { name, contents } => {
            assert_eq!(name, "IES_OSP/OSP01_30K_30D.ies");
            assert_eq!(contents, b"30".to_vec());
        }
        _ => panic!("expected an entry"),
    }
}

#[test]
fn unpack_reports_missing_entries() {
    let bytes = stored_zip(&[("readme.txt", b"no")]);
    match TokistarProvider::unpack_archive(bytes, "OSP01") {
        Unpacked::Missing(m) => assert_eq!(m, "No .ies files found in ZIP"),
        _ => panic!("expected no entry"),
    }
    let bytes = stored_zip(&[("ABC.ies", b"a")]);
    match TokistarProvider::unpack_archive(bytes, "XYZ") {
        Unpacked::Missing(m) => assert_eq!(m, "No matching .ies file found for: XYZ"),
        _ => panic!("expected no match"),
    }
}
