use autosight::koizumi::KoizumiProvider;
use autosight::provider::{FetchError, ManufacturerProvider};

#[test]
fn koizumi_test_can_handle() {
    let provider = KoizumiProvider::new();
    assert!(provider.can_handle("コイズミ照明"));
    assert!(provider.can_handle("コイズミ"));
    assert!(provider.can_handle("KOIZUMI"));
    assert!(!provider.can_handle("大光電機"));
    assert!(!provider.can_handle("パナソニック"));
}

#[test]
fn koizumi_can_handle_hiragana_and_mixed_case() {
    let provider = KoizumiProvider::new();
    assert!(provider.can_handle("こいずみ照明"));
    assert!(provider.can_handle("Koizumi Lighting"));
    assert!(provider.can_handle_folded("koizumi"));
    assert!(!provider.can_handle_folded("KOIZUMI"));
}

#[test]
fn test_extract_psu_model_number() {
    assert_eq!(
        KoizumiProvider::extract_psu_model_number("DALI調光電源：XE92701"),
        Some("XE92701".to_string())
    );
    assert_eq!(
        KoizumiProvider::extract_psu_model_number("非調光電源：XE92184E"),
        Some("XE92184E".to_string())
    );
    assert_eq!(
        KoizumiProvider::extract_psu_model_number("多灯用直流電源装置別置：ELD24320FD"),
        Some("ELD24320FD".to_string())
    );
    assert_eq!(
        KoizumiProvider::extract_psu_model_number("DALI調光電源: XE92701"),
        Some("XE92701".to_string())
    );
    assert_eq!(KoizumiProvider::extract_psu_model_number("DALI調光電源"), None);
    assert_eq!(KoizumiProvider::extract_psu_model_number("専用電源、"), None);
    assert_eq!(KoizumiProvider::extract_psu_model_number("適合DALI電源ドライバー"), None);
}

#[test]
fn test_extract_fixture_model_numbers() {
    assert_eq!(KoizumiProvider::extract_fixture_model_numbers("XD93319"), vec!["XD93319"]);
    assert_eq!(
        KoizumiProvider::extract_fixture_model_numbers("本体：AH92025L\nユニット：AE49422L"),
        vec!["AH92025L", "AE49422L"]
    );
    assert_eq!(
        KoizumiProvider::extract_fixture_model_numbers("本体: AH92025L\nユニット: AE49422L"),
        vec!["AH92025L", "AE49422L"]
    );
    assert_eq!(KoizumiProvider::extract_fixture_model_numbers("本体：XD93319"), vec!["XD93319"]);
}

#[test]
fn fixture_ids_trim_whole_text_without_colon() {
    assert_eq!(KoizumiProvider::extract_fixture_model_numbers("  XD93319 \n"), vec!["XD93319"]);
}

#[test]
fn fixture_ids_from_groups_keeps_present_groups() {
    let groups = vec![Some("A1".to_string()), None, Some("B2".to_string())];
    assert_eq!(KoizumiProvider::fixture_ids_from_groups("x", groups), vec!["A1", "B2"]);
    assert_eq!(KoizumiProvider::fixture_ids_from_groups(" whole ", vec![None]), vec!["whole"]);
    assert_eq!(KoizumiProvider::fixture_ids_from_groups("whole", Vec::new()), vec!["whole"]);
}

#[test]
fn test_build_item_id() {
    assert_eq!(KoizumiProvider::build_item_id("AD12345", Some("DALI調光電源：XE92701")), "AD12345+XE92701");
    assert_eq!(KoizumiProvider::build_item_id("AD12345", Some("DALI調光電源")), "AD12345");
    assert_eq!(KoizumiProvider::build_item_id("AD12345", None), "AD12345");
    assert_eq!(KoizumiProvider::build_item_id("AD12345", Some("")), "AD12345");
    assert_eq!(
        KoizumiProvider::build_item_id("本体：AH92025L\nユニット：AE49422L", None),
        "AH92025L+AE49422L"
    );
    assert_eq!(
        KoizumiProvider::build_item_id("本体：AH92025L\nユニット：AE49422L", Some("DALI調光電源：XE92701")),
        "AH92025L+AE49422L+XE92701"
    );
}

#[test]
fn compose_item_id_joins_with_plus() {
    let parts = vec!["A".to_string(), "B".to_string()];
    assert_eq!(KoizumiProvider::compose_item_id(parts, Some("C".to_string())), "A+B+C");
    assert_eq!(KoizumiProvider::compose_item_id(vec!["A".to_string()], None), "A");
}

#[test]
fn filename_without_original_with_accessory() {
    let provider = KoizumiProvider::new();
    assert_eq!(
        provider.generate_filename("1001", "AD12345", Some("XE92701"), None),
        "1001_AD12345+XE92701.ies"
    );
}

#[test]
fn filename_variants() {
    let provider = KoizumiProvider::new();
    assert_eq!(provider.generate_filename("7", "AD/12\\3", None, None), "7_AD_12_3.ies");
    assert_eq!(provider.generate_filename("7", "AD1", Some(""), None), "7_AD1.ies");
    assert_eq!(provider.generate_filename("7", "AD1", Some("P/1"), None), "7_AD1+P_1.ies");
    assert_eq!(provider.generate_filename("7", "AD1", Some("X"), Some("AD1_XE.ies")), "7_AD1_XE.ies");
    assert_eq!(provider.generate_filename("7", "AD1", None, Some("AD1.IES")), "7_AD1.ies");
    assert_eq!(provider.generate_filename("7", "AD1", None, Some("AD1")), "7_AD1.ies");
}

#[test]
fn filename_from_content_disposition() {
    assert_eq!(
        KoizumiProvider::extract_filename_from_header("attachment; filename=\"AD12345.ies\""),
        Some("AD12345.ies".to_string())
    );
    assert_eq!(
        KoizumiProvider::extract_filename_from_header("attachment; filename=AD1.ies; size=3"),
        Some("AD1.ies".to_string())
    );
    assert_eq!(
        KoizumiProvider::extract_filename_from_header("attachment; filename= AD2.ies "),
        Some("AD2.ies".to_string())
    );
    assert_eq!(KoizumiProvider::extract_filename_from_header("attachment"), None);
    assert_eq!(
        KoizumiProvider::extract_filename_from_header("attachment; filename=\"\"x.ies\""),
        Some("x.ies".to_string())
    );
}

#[test]
fn detail_url_encodes_plus() {
    let provider = KoizumiProvider::new();
    assert_eq!(KoizumiProvider::encode_item_id("AD1+XE2"), "AD1%2BXE2");
    assert_eq!(
        provider.detail_page_url("AH92025L+AE49422L"),
        "https://webcatalog.koizumi-lt.co.jp/kensaku/item/detail/?itemid=AH92025L%2BAE49422L"
    );
}

#[test]
fn file_url_from_detail_page() {
    let provider = KoizumiProvider::new();
    let html = "<a href=\"/kensaku/download/file/file_type/haikou_data/id/12345\">IES</a>";
    assert_eq!(
        provider.file_url_from_page(html),
        Some("https://webcatalog.koizumi-lt.co.jp/kensaku/download/file/file_type/haikou_data/id/12345".to_string())
    );
    assert_eq!(provider.file_url_from_page("<html>none</html>"), None);
}

#[test]
fn koizumi_product_info() {
    let provider = KoizumiProvider::new();
    let info = provider
        .product_info_from_page("AD1", Ok("x /kensaku/download/file/file_type/haikou_data/id/9 y".to_string()))
        .unwrap();
    assert_eq!(info.model_number, "AD1");
    assert_eq!(
        info.ies_file_url.as_deref(),
        Some("https://webcatalog.koizumi-lt.co.jp/kensaku/download/file/file_type/haikou_data/id/9")
    );
    assert_eq!(
        info.product_page_url.as_deref(),
        Some("https://webcatalog.koizumi-lt.co.jp/kensaku/item/detail/?itemid=AD1")
    );
    let missing = provider.product_info_from_page("AD1", Ok("<html></html>".to_string()));
    assert_eq!(missing, Err("IES file not available for: AD1".to_string()));
    let err = provider.product_info_from_page("AD1", Err(FetchError::Send("down".to_string())));
    assert_eq!(err, Err("Detail request failed: down".to_string()));
    let err = provider.product_info_from_page("AD1", Err(FetchError::Read("cut".to_string())));
    assert_eq!(err, Err("Failed to read response: cut".to_string()));
}

#[test]
fn koizumi_display_name() {
    assert_eq!(KoizumiProvider::new().display_name(), "コイズミ照明");
}
