//! The search-then-archive provider: TOKISTAR.
//!
//! The maker's download search is queried with the part of the model number
//! before its first `-`; the result page links a `.zip` archive holding the
//! photometric files of a whole series, of which the best match is kept.

use vstd::prelude::*;
use crate::archive::{
    base_name, common_prefix_len, common_prefix_length as prefix_length, opt_view,
    select_best_entry, selected_entry, string_views,
};
use crate::pattern::{capture_first, first_group};
use crate::provider::{FetchError, ManufacturerProvider, ProductInfo};
use crate::text::{
    before_char, char_run_end, chars_of, contains, ends_with_ies, find, has_ies_extension,
    sanitize, sanitize_path,
};
use crate::unpack::{ies_entries, ies_entry_names, open_archive, read_entry, zip_entry_data, zip_names, EntryError};

verus! {

/// The maker's site.
pub const TOKISTAR_BASE_URL: &'static str = "https://toki.co.jp/tokistar";

/// Path and query of the download search, before the search key.
pub const SEARCH_PATH: &'static str = "/download01/?freeword=";

/// A link to a photometric archive on a search result page, the address as group 1.
pub const ARCHIVE_LINK_PATTERN: &'static str = r#"href="([^"]*\/IES_[^"]*\.zip)""#;

/// The search key for a model number: the part before its first `-`.
pub open spec fn partial_fixture_id(model: Seq<char>) -> Seq<char> {
    before_char(model, '-')
}

/// The file name for a TOKISTAR download: `{spec}_{original}` when the
/// archive entry is known (`.ies` added unless it already ends so, in any
/// case), else `{spec}_{model}.ies` with path separators made `_`.
pub open spec fn tokistar_filename(spec_no: Seq<char>, model: Seq<char>, original: Option<Seq<char>>) -> Seq<char> {
    match original {
        Some(o) => if has_ies_extension(o) {
            spec_no + "_"@ + o
        } else {
            spec_no + "_"@ + o + ".ies"@
        },
        None => spec_no + "_"@ + sanitize_path(model) + ".ies"@,
    }
}

/// The lowercase spellings of the maker's name, in any script.
pub open spec fn tokistar_handles(folded: Seq<char>) -> bool {
    contains(folded, "tokistar"@) || contains(folded, "トキスター"@)
}

/// The `.ies` entries of the archive held in `bytes` that open, in archive order.
pub open spec fn archive_listing(bytes: Seq<u8>) -> Seq<Seq<char>> {
    ies_entries(bytes, zip_names(bytes)->0)
}

/// `r` is what the archive held in `bytes` yields for `id`: broken when it
/// is no archive; missing (with the reason) when it has no `.ies` entry or
/// none matches `id`; else the chosen entry and its contents, or broken when
/// that entry cannot be read.
pub open spec fn unpacks_to(bytes: Seq<u8>, id: Seq<char>, r: Unpacked) -> bool {
    match zip_names(bytes) {
        None => r is Broken,
        Some(_) => {
            let listing = archive_listing(bytes);
            if listing.len() == 0 {
                r matches Unpacked::Missing(m) && m@ == "No .ies files found in ZIP"@
            } else {
                match selected_entry(id, listing) {
                    None => r matches Unpacked::Missing(m) && m@ == "No matching .ies file found for: "@ + id,
                    Some(e) => match zip_entry_data(bytes, e) {
                        Some(c) => r matches Unpacked::Entry { name, contents } && name@ == e && contents@ == c,
                        None => r is Broken,
                    },
                }
            }
        },
    }
}

/// What an archive yields for a model.
pub enum Unpacked {
    /// The chosen entry's full name and its contents.
    Entry { name: String, contents: Vec<u8> },
    /// No suitable entry: the message says why.
    Missing(String),
    /// The archive or the entry could not be read: the message says why.
    Broken(String),
}

/// The provider for TOKISTAR.
#[derive(Debug, Clone, PartialEq, Eq)]
pub struct TokistarProvider {
    pub base_url: String,
}

impl TokistarProvider {
    /// The provider for the maker's public site.
    pub fn new() -> (r: Self)
        ensures
            r.base_url@ == TOKISTAR_BASE_URL@,
    {
        TokistarProvider { base_url: String::from_str(TOKISTAR_BASE_URL) }
    }

    /// The search key for a model number, such as `OSP01` for `OSP01-30K-30D-B-TB`.
    pub fn extract_partial_fixture_id(fixture_id: &str) -> (r: String)
        ensures
            r@ == partial_fixture_id(fixture_id@),
    {
        let v = chars_of(fixture_id);
        let end = char_run_end(&v, 0, '-');
        assert(v@.subrange(0, v.len() as int) =~= v@);
        String::from_str(fixture_id.substring_char(0, end))
    }

    /// Length of the longest common prefix of `a` and `b`, in characters.
    pub fn common_prefix_length(a: &str, b: &str) -> (r: usize)
        ensures
            r == common_prefix_len(a@, b@),
    {
        prefix_length(a, b)
    }

    /// The archive entry chosen for `fixture_id` (see `archive::select_best_entry`).
    pub fn select_best_ies_file(fixture_id: &str, ies_files: &[String]) -> (r: Option<String>)
        ensures
            opt_view(r) == selected_entry(fixture_id@, string_views(ies_files@)),
    {
        select_best_entry(fixture_id, ies_files)
    }

    /// The search page for a search key.
    pub fn search_page_url(&self, partial_id: &str) -> (r: String)
        ensures
            r@ == self.base_url@ + SEARCH_PATH@ + partial_id@,
    {
        let mut r = self.base_url.clone();
        r.append(SEARCH_PATH);
        r.append(partial_id);
        r
    }

    /// The archive's address from a search result page, if the page links one.
    pub fn archive_url_from_page(html: &str) -> (r: Option<String>)
        ensures
            opt_view(r) == first_group(ARCHIVE_LINK_PATTERN@, html@),
    {
        capture_first(ARCHIVE_LINK_PATTERN, html)
    }

    /// What is known of `model_number` once its search page has been
    /// requested: the archive link found there, and the page's address; a
    /// page without an archive link means the maker has nothing for the model.
    pub fn product_info_from_page(&self, model_number: &str, page: Result<String, FetchError>) -> (r: Result<ProductInfo, String>)
        ensures
            match page {
                Err(FetchError::Send(e)) => r is Err && r->Err_0@ == "Search request failed: "@ + e@,
                Err(FetchError::Read(e)) => r is Err && r->Err_0@ == "Failed to read response: "@ + e@,
                Ok(html) => match first_group(ARCHIVE_LINK_PATTERN@, html@) {
                    None => r is Err && r->Err_0@ == "IES file not found for: "@ + partial_fixture_id(
                        model_number@,
                    ),
                    Some(u) => r is Ok && {
                        let info = r->Ok_0;
                        &&& info.model_number@ == model_number@
                        &&& info.product_name is None
                        &&& info.price is None
                        &&& info.image_url is None
                        &&& opt_view(info.ies_file_url) == Some(u)
                        &&& opt_view(info.product_page_url) == Some(
                            self.base_url@ + SEARCH_PATH@ + partial_fixture_id(model_number@),
                        )
                    },
                },
            },
    {
        match page {
            Err(FetchError::Send(e)) => Err(String::from_str("Search request failed: ").concat(e.as_str())),
            Err(FetchError::Read(e)) => Err(String::from_str("Failed to read response: ").concat(e.as_str())),
            Ok(html) => {
                let partial = Self::extract_partial_fixture_id(model_number);
                let ies_file_url = Self::archive_url_from_page(html.as_str());
                if ies_file_url.is_none() {
                    return Err(String::from_str("IES file not found for: ").concat(partial.as_str()));
                }
                let page_url = self.search_page_url(partial.as_str());
                Ok(ProductInfo {
                    model_number: String::from_str(model_number),
                    product_name: None,
                    price: None,
                    ies_file_url,
                    image_url: None,
                    product_page_url: Some(page_url),
                })
            },
        }
    }

    /// The entry to take for `fixture_id` among the archive's `.ies` entries,
    /// or the reason there is none.
    pub fn pick_entry(fixture_id: &str, ies_files: &[String]) -> (r: Result<String, String>)
        ensures
            ies_files@.len() == 0 ==> r is Err && r->Err_0@ == "No .ies files found in ZIP"@,
            ies_files@.len() > 0 ==> match selected_entry(fixture_id@, string_views(ies_files@)) {
                Some(e) => r is Ok && r->Ok_0@ == e,
                None => r is Err && r->Err_0@ == "No matching .ies file found for: "@ + fixture_id@,
            },
    {
        if ies_files.len() == 0 {
            return Err(String::from_str("No .ies files found in ZIP"));
        }
        match Self::select_best_ies_file(fixture_id, ies_files) {
            Some(e) => Ok(e),
            None => Err(String::from_str("No matching .ies file found for: ").concat(fixture_id)),
        }
    }

    /// Opens the archive in `zip_bytes`, chooses the entry for `fixture_id`
    /// among its `.ies` entries that open, and reads that entry.
    pub fn unpack_archive(zip_bytes: Vec<u8>, fixture_id: &str) -> (r: Unpacked)
        ensures
            unpacks_to(zip_bytes@, fixture_id@, r),
    {
        let ghost bytes = zip_bytes@;
        let mut archive = match open_archive(zip_bytes) {
            Ok(a) => a,
            Err(e) => {
                return Unpacked::Broken(String::from_str("Failed to open ZIP: ").concat(e.to_string().as_str()));
            },
        };
        let names = ies_entry_names(&mut archive);
        let best = match Self::pick_entry(fixture_id, names.as_slice()) {
            Ok(b) => b,
            Err(m) => {
                return Unpacked::Missing(m);
            },
        };
        match read_entry(&mut archive, best.as_str()) {
            Ok(contents) => Unpacked::Entry { name: best, contents },
            Err(EntryError::Open(e)) => {
                let mut m = String::from_str("Failed to read ");
                m.append(best.as_str());
                m.append(" from ZIP: ");
                m.append(e.as_str());
                Unpacked::Broken(m)
            },
            Err(EntryError::Read(e)) => Unpacked::Broken(
                String::from_str("Failed to read file content: ").concat(e.as_str()),
            ),
        }
    }

    /// The base name of an archive entry: what follows its last `/`.
    pub fn entry_base_name(entry: &str) -> (r: String)
        ensures
            r@ == base_name(entry@),
    {
        let n = entry.unicode_len();
        let mut start: usize = 0;
        let mut i: usize = 0;
        while i < n
            invariant
                n == entry@.len(),
                start <= i <= n,
                base_name(entry@.subrange(0, i as int)) == entry@.subrange(start as int, i as int),
            decreases n - i,
        {
            let ghost pre = entry@.subrange(0, i + 1);
            assert(pre.drop_last() =~= entry@.subrange(0, i as int));
            assert(pre.last() == entry@[i as int]);
            if entry.get_char(i) == '/' {
                start = i + 1;
            }
            assert(entry@.subrange(start as int, i + 1) =~= base_name(pre));
            i += 1;
        }
        assert(entry@.subrange(0, n as int) =~= entry@);
        String::from_str(entry.substring_char(start, n))
    }
}

impl Default for TokistarProvider {
    fn default() -> (r: Self)
        ensures
            r.base_url@ == TOKISTAR_BASE_URL@,
    {
        Self::new()
    }
}

/// The file name of a TOKISTAR download never depends on the power-supply
/// text: two requests that differ only in it get the same name.
pub proof fn lemma_filename_ignores_accessory(
    p: TokistarProvider,
    spec_no: Seq<char>,
    model: Seq<char>,
    psu1: Option<Seq<char>>,
    psu2: Option<Seq<char>>,
    original: Option<Seq<char>>,
)
    ensures
        p.spec_filename(spec_no, model, psu1, original) == p.spec_filename(spec_no, model, psu2, original),
{
}

impl ManufacturerProvider for TokistarProvider {
    open spec fn spec_display_name(&self) -> Seq<char> {
        "TOKISTAR"@
    }

    open spec fn handles(&self, folded: Seq<char>) -> bool {
        tokistar_handles(folded)
    }

    open spec fn spec_filename(
        &self,
        spec_no: Seq<char>,
        model_number: Seq<char>,
        psu: Option<Seq<char>>,
        original_filename: Option<Seq<char>>,
    ) -> Seq<char> {
        tokistar_filename(spec_no, model_number, original_filename)
    }

    fn display_name(&self) -> (r: &str) {
        "TOKISTAR"
    }

    fn can_handle_folded(&self, folded: &str) -> (r: bool) {
        let h = chars_of(folded);
        find(&h, &chars_of("tokistar")).is_some() || find(&h, &chars_of("トキスター")).is_some()
    }

    fn generate_filename(
        &self,
        spec_no: &str,
        model_number: &str,
        psu: Option<&str>,
        original_filename: Option<&str>,
    ) -> (r: String) {
        let mut r = String::from_str(spec_no);
        r.append("_");
        match original_filename {
            Some(orig) => {
                r.append(orig);
                if !ends_with_ies(orig) {
                    r.append(".ies");
                }
            },
            None => {
                r.append(sanitize(model_number).as_str());
                r.append(".ies");
            },
        }
        r
    }
}

} // verus!
