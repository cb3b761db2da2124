//! What every maker's provider offers, and the values that pass between a
//! provider, the orchestrator and the caller.

use vstd::prelude::*;

verus! {

/// What is known about one model: produced fresh by each lookup.
#[derive(Debug, Clone, PartialEq, Eq)]
pub struct ProductInfo {
    pub model_number: String,
    pub product_name: Option<String>,
    /// List price in yen.
    pub price: Option<u32>,
    /// Where the photometric file (or the archive holding it) can be fetched.
    pub ies_file_url: Option<String>,
    pub image_url: Option<String>,
    pub product_page_url: Option<String>,
}

/// The outcome of one download: either a saved file (path, size and, when the
/// server named it, the original file name) or an error message.
#[derive(Debug, Clone, PartialEq, Eq)]
pub struct DownloadResult {
    pub success: bool,
    pub file_path: Option<String>,
    pub file_size: Option<u64>,
    pub original_filename: Option<String>,
    pub error: Option<String>,
}

impl DownloadResult {
    /// Exactly one of the two shapes holds: a success with a path and a size
    /// and no error, or a failure with an error and nothing else.
    pub open spec fn wf(&self) -> bool {
        ||| (self.success && self.file_path is Some && self.file_size is Some && self.error is None)
        ||| (!self.success && self.file_path is None && self.file_size is None
            && self.original_filename is None && self.error is Some)
    }

    /// Whether this result has one of the two well-formed shapes.
    pub fn is_well_formed(&self) -> (r: bool)
        ensures
            r == self.wf(),
    {
        (self.success && self.file_path.is_some() && self.file_size.is_some() && self.error.is_none())
            || (!self.success && self.file_path.is_none() && self.file_size.is_none()
            && self.original_filename.is_none() && self.error.is_some())
    }

    /// A saved file.
    pub fn success(file_path: String, file_size: u64, original_filename: Option<String>) -> (r: Self)
        ensures
            r.wf(),
            r.success,
            r.file_path == Some(file_path),
            r.file_size == Some(file_size),
            r.original_filename == original_filename,
            r.error is None,
    {
        DownloadResult {
            success: true,
            file_path: Some(file_path),
            file_size: Some(file_size),
            original_filename,
            error: None,
        }
    }

    /// A failed download, with its message.
    pub fn failure(error: String) -> (r: Self)
        ensures
            r.wf(),
            !r.success,
            r.error == Some(error),
    {
        DownloadResult {
            success: false,
            file_path: None,
            file_size: None,
            original_filename: None,
            error: Some(error),
        }
    }
}

/// Why fetching a page failed: the request could not be sent, or its body
/// could not be read.
#[derive(Debug, Clone, PartialEq, Eq)]
pub enum FetchError {
    Send(String),
    Read(String),
}

/// The lowercase form of `s`, as `str::to_lowercase` gives it.
pub uninterp spec fn lower_of(s: Seq<char>) -> Seq<char>;

/// The ASCII lowercase form of a character: `A`–`Z` become `a`–`z`, every
/// other character is kept.
pub open spec fn ascii_lower_char(c: char) -> char {
    if 'A' <= c <= 'Z' {
        ((c as u32) + 32) as char
    } else {
        c
    }
}

/// Every character of `s` is ASCII.
pub open spec fn all_ascii(s: Seq<char>) -> bool {
    forall|i: int| 0 <= i < s.len() ==> (s[i] as u32) < 128
}

/// `s` with `A`–`Z` made `a`–`z`.
pub open spec fn ascii_fold(s: Seq<char>) -> Seq<char> {
    s.map_values(|c: char| ascii_lower_char(c))
}

/// Relies on `str::to_lowercase`: the full Unicode lowercase mapping, which
/// depends on the characters alone, and which on ASCII text maps `A`–`Z` to
/// `a`–`z` and keeps everything else.
#[verifier::external_body]
pub fn to_lower(s: &str) -> (r: String)
    ensures
        r@ == lower_of(s@),
        all_ascii(s@) ==> r@ == ascii_fold(s@),
{
    s.to_lowercase()
}

/// The characters held by an optional string slice.
pub open spec fn str_opt(o: Option<&str>) -> Option<Seq<char>> {
    match o {
        Some(s) => Some(s@),
        None => None,
    }
}

/// The capabilities every maker's provider has.
pub trait ManufacturerProvider {
    /// The maker's name as shown to users.
    spec fn spec_display_name(&self) -> Seq<char>;

    /// Whether a maker name, already lowercased, designates this maker.
    spec fn handles(&self, folded: Seq<char>) -> bool;

    /// The file name this maker's downloads are saved under.
    spec fn spec_filename(
        &self,
        spec_no: Seq<char>,
        model_number: Seq<char>,
        psu: Option<Seq<char>>,
        original_filename: Option<Seq<char>>,
    ) -> Seq<char>;

    fn display_name(&self) -> (r: &str)
        ensures
            r@ == self.spec_display_name(),
    ;

    /// Whether the lowercased maker name `folded` designates this maker.
    fn can_handle_folded(&self, folded: &str) -> (r: bool)
        ensures
            r == self.handles(folded@),
    ;

    /// Whether `manufacturer` designates this maker, regardless of case.
    fn can_handle(&self, manufacturer: &str) -> (r: bool)
        ensures
            r == self.handles(lower_of(manufacturer@)),
    {
        let folded = to_lower(manufacturer);
        self.can_handle_folded(folded.as_str())
    }

    /// The name under which a download is saved, from the item's Spec No.,
    /// its model number, its power-supply text and the server's file name.
    fn generate_filename(
        &self,
        spec_no: &str,
        model_number: &str,
        psu: Option<&str>,
        original_filename: Option<&str>,
    ) -> (r: String)
        ensures
            r@ == self.spec_filename(spec_no@, model_number@, str_opt(psu), str_opt(original_filename)),
    ;
}

} // verus!
