//! The direct-catalog provider: Koizumi Lighting's web catalog.
//!
//! A catalog entry is looked up by an item id built from the fixture's model
//! numbers and the power supply's model number, joined by `+`. The detail page
//! links the photometric file by a numeric id, and the download's
//! Content-Disposition header names the file.

use vstd::prelude::*;
use crate::archive::{opt_view, strip_suffixes, strip_suffixes_end};
use crate::pattern::{all_groups, capture_all, capture_first, first_group, opt_views};
use crate::provider::{str_opt, FetchError, ManufacturerProvider, ProductInfo};
use crate::text::{
    before_char, char_run_end, chars_of, contains, find, first_occurrence, join, join_with,
    sanitize, sanitize_path, skip_char, trim, trim_start_char, trim_ws,
};

verus! {

/// A power-supply model number: after a colon (ASCII or full-width) and any
/// white space, the alphanumeric run that ends the text.
pub const PSU_PATTERN: &'static str = r"[:：]\s*([A-Za-z0-9]+)$";

/// A fixture model number: after a colon and any white space, an alphanumeric run.
pub const FIXTURE_PATTERN: &'static str = r"[:：]\s*([A-Za-z0-9]+)";

/// The photometric-file link on a detail page, with the file id as group 1.
pub const FILE_LINK_PATTERN: &'static str = r"/kensaku/download/file/file_type/haikou_data/id/(\d+)";

/// The catalog's address.
pub const KOIZUMI_BASE_URL: &'static str = "https://webcatalog.koizumi-lt.co.jp";

/// Path and query of a detail page, before the item id.
pub const DETAIL_PATH: &'static str = "/kensaku/item/detail/?itemid=";

/// Path of a photometric file, before its id.
pub const FILE_PATH: &'static str = "/kensaku/download/file/file_type/haikou_data/id/";

/// `s` with each `+` written as `%2B`.
pub open spec fn encode_plus(s: Seq<char>) -> Seq<char>
    decreases s.len(),
{
    if s.len() == 0 {
        s
    } else {
        encode_plus(s.drop_last()) + if s.last() == '+' {
            "%2B"@
        } else {
            seq![s.last()]
        }
    }
}

/// The model numbers found among the regex groups, in order.
pub open spec fn present(groups: Seq<Option<Seq<char>>>) -> Seq<Seq<char>>
    decreases groups.len(),
{
    if groups.len() == 0 {
        Seq::empty()
    } else {
        present(groups.drop_last()) + match groups.last() {
            Some(g) => seq![g],
            None => Seq::empty(),
        }
    }
}

/// The fixture model numbers of `fixture` given the groups that the fixture
/// pattern captured in it: those groups, or the whole trimmed text when there
/// are none.
pub open spec fn fixture_ids(fixture: Seq<char>, groups: Seq<Option<Seq<char>>>) -> Seq<Seq<char>> {
    if present(groups).len() == 0 {
        seq![trim_ws(fixture)]
    } else {
        present(groups)
    }
}

/// The fixture model numbers written in `fixture`.
pub open spec fn fixture_model_numbers(fixture: Seq<char>) -> Seq<Seq<char>> {
    fixture_ids(fixture, all_groups(FIXTURE_PATTERN@, fixture))
}

/// The power-supply model number written in `psu`, if any.
pub open spec fn psu_model_number(psu: Seq<char>) -> Option<Seq<char>> {
    first_group(PSU_PATTERN@, psu)
}

/// The item id from the fixture model numbers and the power-supply model number.
pub open spec fn composed_item_id(parts: Seq<Seq<char>>, psu_model: Option<Seq<char>>) -> Seq<char> {
    match psu_model {
        Some(p) => join_with(parts.push(p), "+"@),
        None => join_with(parts, "+"@),
    }
}

/// The catalog's item id for a fixture text and an optional power-supply text.
pub open spec fn item_id(fixture: Seq<char>, psu: Option<Seq<char>>) -> Seq<char> {
    composed_item_id(
        fixture_model_numbers(fixture),
        match psu {
            Some(p) => psu_model_number(p),
            None => None,
        },
    )
}

/// The file name a Content-Disposition header gives: what follows the first
/// `filename=`, either up to the closing quote (leading quotes dropped) or up
/// to the next `;`, trimmed.
pub open spec fn header_filename(h: Seq<char>) -> Option<Seq<char>> {
    match first_occurrence(h, "filename="@) {
        None => None,
        Some(k) => {
            let rest = h.subrange(k + "filename="@.len(), h.len() as int);
            if rest.len() > 0 && rest[0] == '"' {
                Some(before_char(trim_start_char(rest, '"'), '"'))
            } else {
                Some(trim_ws(before_char(rest, ';')))
            }
        },
    }
}

/// The provider for Koizumi Lighting.
#[derive(Debug, Clone, PartialEq, Eq)]
pub struct KoizumiProvider {
    pub base_url: String,
}

impl KoizumiProvider {
    /// The provider for the public catalog.
    pub fn new() -> (r: Self)
        ensures
            r.base_url@ == KOIZUMI_BASE_URL@,
    {
        KoizumiProvider { base_url: String::from_str(KOIZUMI_BASE_URL) }
    }

    /// The power-supply model number in a power-supply text such as
    /// `DALI調光電源：XE92701`; none for descriptive text without one.
    pub fn extract_psu_model_number(psu: &str) -> (r: Option<String>)
        ensures
            opt_view(r) == psu_model_number(psu@),
    {
        capture_first(PSU_PATTERN, psu)
    }

    /// The fixture model numbers given what the fixture pattern captured in
    /// `fixture`: the captured numbers, or the whole trimmed text when none.
    pub fn fixture_ids_from_groups(fixture: &str, groups: Vec<Option<String>>) -> (r: Vec<String>)
        ensures
            r@.map_values(|s: String| s@) == fixture_ids(fixture@, opt_views(groups@)),
    {
        let ghost g = opt_views(groups@);
        let mut found: Vec<String> = Vec::new();
        let mut i: usize = 0;
        let mut groups = groups;
        let ghost all = groups@;
        while i < groups.len()
            invariant
                groups@ == all,
                g == opt_views(all),
                i <= all.len(),
                found@.map_values(|s: String| s@) == present(g.subrange(0, i as int)),
            decreases all.len() - i,
        {
            let ghost pre = g.subrange(0, i + 1);
            assert(pre.drop_last() =~= g.subrange(0, i as int));
            assert(pre.last() == opt_view(all[i as int]));
            match &groups[i] {
                Some(s) => {
                    found.push(s.clone());
                },
                None => {},
            }
            assert(found@.map_values(|s: String| s@) =~= present(pre));
            i += 1;
        }
        assert(g.subrange(0, all.len() as int) =~= g);
        if found.len() == 0 {
            let whole = String::from_str(trim(fixture));
            let r = vec![whole];
            assert(r@.map_values(|s: String| s@) =~= seq![trim_ws(fixture@)]);
            r
        } else {
            found
        }
    }

    /// The fixture model numbers in a fixture text: every number after a
    /// colon (as in `本体：AH92025L\nユニット：AE49422L`), or the whole
    /// trimmed text when it has none.
    pub fn extract_fixture_model_numbers(fixture: &str) -> (r: Vec<String>)
        ensures
            r@.map_values(|s: String| s@) == fixture_model_numbers(fixture@),
    {
        let groups = capture_all(FIXTURE_PATTERN, fixture);
        Self::fixture_ids_from_groups(fixture, groups)
    }

    /// The item id from fixture model numbers and a power-supply model
    /// number: all of them joined by `+`.
    pub fn compose_item_id(parts: Vec<String>, psu_model: Option<String>) -> (r: String)
        ensures
            r@ == composed_item_id(parts@.map_values(|s: String| s@), opt_view(psu_model)),
    {
        let mut parts = parts;
        let ghost before = parts@;
        if let Some(p) = psu_model {
            parts.push(p);
            assert(parts@.map_values(|s: String| s@) =~= before.map_values(|s: String| s@).push(
                opt_view(psu_model)->0,
            ));
        }
        join(&parts, "+")
    }

    /// The item id for a fixture text and an optional power-supply text, such
    /// as `AH92025L+AE49422L+XE92701`.
    pub fn build_item_id(fixture: &str, psu: Option<&str>) -> (r: String)
        ensures
            r@ == item_id(fixture@, str_opt(psu)),
    {
        let parts = Self::extract_fixture_model_numbers(fixture);
        let psu_model = match psu {
            Some(p) => Self::extract_psu_model_number(p),
            None => None,
        };
        Self::compose_item_id(parts, psu_model)
    }

    /// The file name in a Content-Disposition header value, if it has one.
    pub fn extract_filename_from_header(header_value: &str) -> (r: Option<String>)
        ensures
            opt_view(r) == header_filename(header_value@),
    {
        let h = chars_of(header_value);
        let key = chars_of("filename=");
        match find(&h, &key) {
            None => None,
            Some(k) => {
                let start = k + key.len();
                if start < h.len() && h[start] == '"' {
                    let a = skip_char(&h, start, '"');
                    let b = char_run_end(&h, a, '"');
                    Some(String::from_str(header_value.substring_char(a, b)))
                } else {
                    let b = char_run_end(&h, start, ';');
                    Some(String::from_str(trim(header_value.substring_char(start, b))))
                }
            },
        }
    }

    /// `s` with each `+` written as `%2B`, as a query parameter needs it.
    pub fn encode_item_id(s: &str) -> (r: String)
        ensures
            r@ == encode_plus(s@),
    {
        let n = s.unicode_len();
        let mut r = String::new();
        let mut i: usize = 0;
        while i < n
            invariant
                n == s@.len(),
                i <= n,
                r@ == encode_plus(s@.subrange(0, i as int)),
            decreases n - i,
        {
            let c = s.get_char(i);
            let ghost pre = s@.subrange(0, i + 1);
            assert(pre.drop_last() =~= s@.subrange(0, i as int));
            if c == '+' {
                r.append("%2B");
            } else {
                let piece = s.substring_char(i, i + 1);
                assert(piece@ =~= seq![c]);
                r.append(piece);
            }
            i += 1;
        }
        assert(s@.subrange(0, n as int) =~= s@);
        r
    }

    /// The detail page of a catalog item.
    pub fn detail_page_url(&self, item_id: &str) -> (r: String)
        ensures
            r@ == self.base_url@ + DETAIL_PATH@ + encode_plus(item_id@),
    {
        let encoded = Self::encode_item_id(item_id);
        let mut r = self.base_url.clone();
        r.append(DETAIL_PATH);
        r.append(encoded.as_str());
        r
    }

    /// The address of the photometric file with id `file_id`.
    pub fn file_url(&self, file_id: &str) -> (r: String)
        ensures
            r@ == self.base_url@ + FILE_PATH@ + file_id@,
    {
        let mut r = self.base_url.clone();
        r.append(FILE_PATH);
        r.append(file_id);
        r
    }

    /// The photometric file's address from a detail page, if the page links one.
    pub fn file_url_from_page(&self, html: &str) -> (r: Option<String>)
        ensures
            opt_view(r) == match first_group(FILE_LINK_PATTERN@, html@) {
                Some(id) => Some(self.base_url@ + FILE_PATH@ + id),
                None => None,
            },
    {
        match capture_first(FILE_LINK_PATTERN, html) {
            Some(id) => Some(self.file_url(id.as_str())),
            None => None,
        }
    }

    /// What is known of `model_number` once its detail page has been
    /// requested: the file link found on the page, and the page's address; a
    /// page without a file link means the catalog has nothing for the model.
    /// The lookup is by the model number alone (no power supply is involved),
    /// so the download's retry without the power supply does not apply.
    pub fn product_info_from_page(&self, model_number: &str, page: Result<String, FetchError>) -> (r: Result<ProductInfo, String>)
        ensures
            match page {
                Err(FetchError::Send(e)) => r is Err && r->Err_0@ == "Detail request failed: "@ + e@,
                Err(FetchError::Read(e)) => r is Err && r->Err_0@ == "Failed to read response: "@ + e@,
                Ok(html) => match first_group(FILE_LINK_PATTERN@, html@) {
                    None => r is Err && r->Err_0@ == "IES file not available for: "@ + model_number@,
                    Some(id) => r is Ok && {
                        let info = r->Ok_0;
                        &&& info.model_number@ == model_number@
                        &&& info.product_name is None
                        &&& info.price is None
                        &&& info.image_url is None
                        &&& opt_view(info.ies_file_url) == Some(self.base_url@ + FILE_PATH@ + id)
                        &&& opt_view(info.product_page_url) == Some(self.base_url@ + DETAIL_PATH@ + model_number@)
                    },
                },
            },
    {
        match page {
            Err(FetchError::Send(e)) => Err(String::from_str("Detail request failed: ").concat(e.as_str())),
            Err(FetchError::Read(e)) => Err(String::from_str("Failed to read response: ").concat(e.as_str())),
            Ok(html) => {
                let ies_file_url = self.file_url_from_page(html.as_str());
                if ies_file_url.is_none() {
                    return Err(String::from_str("IES file not available for: ").concat(model_number));
                }
                let mut page_url = self.base_url.clone();
                page_url.append(DETAIL_PATH);
                page_url.append(model_number);
                Ok(ProductInfo {
                    model_number: String::from_str(model_number),
                    product_name: None,
                    price: None,
                    ies_file_url,
                    image_url: None,
                    product_page_url: Some(page_url),
                })
            },
        }
    }
}

impl Default for KoizumiProvider {
    fn default() -> (r: Self)
        ensures
            r.base_url@ == KOIZUMI_BASE_URL@,
    {
        Self::new()
    }
}

/// The file name for a Koizumi download: `{spec}_{original without .ies}.ies`
/// when the server named the file, else `{spec}_{model}[+{psu}].ies` with
/// path separators made `_`.
pub open spec fn koizumi_filename(
    spec_no: Seq<char>,
    model: Seq<char>,
    psu: Option<Seq<char>>,
    original: Option<Seq<char>>,
) -> Seq<char> {
    match original {
        Some(o) => spec_no + "_"@ + strip_suffixes(strip_suffixes(o, ".ies"@), ".IES"@) + ".ies"@,
        None => if psu is Some && psu->0.len() > 0 {
            spec_no + "_"@ + sanitize_path(model) + "+"@ + sanitize_path(psu->0) + ".ies"@
        } else {
            spec_no + "_"@ + sanitize_path(model) + ".ies"@
        },
    }
}

/// The lowercase spellings of the maker's name, in any script.
pub open spec fn koizumi_handles(folded: Seq<char>) -> bool {
    contains(folded, "コイズミ"@) || contains(folded, "koizumi"@) || contains(folded, "こいずみ"@)
}

impl ManufacturerProvider for KoizumiProvider {
    open spec fn spec_display_name(&self) -> Seq<char> {
        "コイズミ照明"@
    }

    open spec fn handles(&self, folded: Seq<char>) -> bool {
        koizumi_handles(folded)
    }

    open spec fn spec_filename(
        &self,
        spec_no: Seq<char>,
        model_number: Seq<char>,
        psu: Option<Seq<char>>,
        original_filename: Option<Seq<char>>,
    ) -> Seq<char> {
        koizumi_filename(spec_no, model_number, psu, original_filename)
    }

    fn display_name(&self) -> (r: &str) {
        "コイズミ照明"
    }

    fn can_handle_folded(&self, folded: &str) -> (r: bool) {
        let h = chars_of(folded);
        find(&h, &chars_of("コイズミ")).is_some() || find(&h, &chars_of("koizumi")).is_some()
            || find(&h, &chars_of("こいずみ")).is_some()
    }

    fn generate_filename(
        &self,
        spec_no: &str,
        model_number: &str,
        psu: Option<&str>,
        original_filename: Option<&str>,
    ) -> (r: String) {
        let mut r = String::from_str(spec_no);
        r.append("_");
        match original_filename {
            Some(orig) => {
                let o = chars_of(orig);
                let lower = chars_of(".ies");
                let upper = chars_of(".IES");
                let end1 = strip_suffixes_end(&o, o.len(), &lower);
                assert(o@.subrange(0, o.len() as int) =~= o@);
                let end2 = strip_suffixes_end(&o, end1, &upper);
                r.append(orig.substring_char(0, end2));
            },
            None => {
                r.append(sanitize(model_number).as_str());
                match psu {
                    Some(p) => {
                        if p.unicode_len() > 0 {
                            r.append("+");
                            r.append(sanitize(p).as_str());
                        }
                    },
                    None => {},
                }
            },
        }
        r.append(".ies");
        r
    }
}

} // verus!
