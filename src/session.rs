//! Driving one download as a step machine.
//!
//! A download looks the model up on one or more catalog pages, fetches the
//! file (or archive) the first page that has one links, takes the payload out
//! of it and saves it. The machine decides every step; the caller performs
//! each request (network or disk) and answers with what came of it, so that
//! every decision here is verified for every possible answer.

use vstd::prelude::*;
use crate::archive::{base_name, opt_view};
use crate::koizumi::{encode_plus, header_filename, item_id, KoizumiProvider, DETAIL_PATH, FILE_LINK_PATTERN, FILE_PATH};
use crate::pattern::first_group;
use crate::provider::{str_opt, DownloadResult};
use crate::registry::Provider;
use crate::archive::selected_entry;
use crate::tokistar::{
    archive_listing, partial_fixture_id, TokistarProvider, Unpacked, ARCHIVE_LINK_PATTERN, SEARCH_PATH,
};
use crate::unpack::{zip_entry_data, zip_names};

verus! {

/// What the caller is to do next for a download in progress.
pub enum Request {
    /// Fetch the page at this address and answer with its text.
    FetchPage(String),
    /// Request this address and answer once the status and headers are in.
    FetchFile(String),
    /// Read the body of the response just received.
    ReadBody,
    /// Write the bytes to the path, creating its parent directory first.
    Save { path: String, bytes: Vec<u8> },
    /// The download is over, with this outcome.
    Finished(Result<DownloadResult, String>),
}

/// What came of the last request.
pub enum Reply {
    /// The text of the requested page.
    Page(String),
    /// The status of a file request: whether it is a success, its text, and
    /// the Content-Disposition header if there is one.
    Head { ok: bool, status: String, content_disposition: Option<String> },
    /// The body of the response.
    Body(Vec<u8>),
    /// The file was written.
    Saved,
    /// The request could not be sent.
    SendFailed(String),
    /// The response body could not be read.
    ReadFailed(String),
    /// The parent directory could not be created.
    DirFailed(String),
    /// The file could not be written.
    WriteFailed(String),
}

/// Where a download stands.
pub enum Phase {
    /// Waiting for the page of lookup key number `attempt`.
    Lookup { attempt: usize },
    /// Waiting for the status of the file request.
    Fetch,
    /// Waiting for the body; `original` is the file name known so far.
    Read { original: Option<String> },
    /// Waiting for the file to be written.
    Write { size: u64, original: Option<String> },
    /// Nothing more to do.
    Done,
}

/// A download in progress.
pub struct DownloadSession {
    pub model_number: String,
    pub dest_path: String,
    /// The catalog keys to look up, in order, until one page links a file.
    pub lookups: Vec<String>,
    pub phase: Phase,
}

/// The keys a provider looks a model up by: Koizumi Lighting tries the
/// composite item id, then (when a power supply is given) the model number
/// alone; TOKISTAR searches for the part before the first `-`.
pub open spec fn lookup_keys(p: Provider, model: Seq<char>, psu: Option<Seq<char>>) -> Seq<Seq<char>> {
    match p {
        Provider::Koizumi(_) => if psu is Some && psu->0.len() > 0 {
            seq![item_id(model, psu), model]
        } else {
            seq![item_id(model, psu)]
        },
        Provider::Tokistar(_) => seq![partial_fixture_id(model)],
    }
}

/// The page a key is looked up on.
pub open spec fn lookup_url(p: Provider, key: Seq<char>) -> Seq<char> {
    match p {
        Provider::Koizumi(k) => k.base_url@ + DETAIL_PATH@ + encode_plus(key),
        Provider::Tokistar(t) => t.base_url@ + SEARCH_PATH@ + key,
    }
}

/// The download link a lookup page holds, if any.
pub open spec fn page_link(p: Provider, html: Seq<char>) -> Option<Seq<char>> {
    match p {
        Provider::Koizumi(k) => match first_group(FILE_LINK_PATTERN@, html) {
            Some(id) => Some(k.base_url@ + FILE_PATH@ + id),
            None => None,
        },
        Provider::Tokistar(_) => first_group(ARCHIVE_LINK_PATTERN@, html),
    }
}

/// The message when no lookup page links a file.
pub open spec fn not_found_message(p: Provider, keys: Seq<Seq<char>>) -> Seq<char> {
    match p {
        Provider::Koizumi(_) => if keys.len() > 1 {
            "IES file not found for: "@ + keys[0] + " nor "@ + keys[1]
        } else {
            "IES file not available for: "@ + keys[0]
        },
        Provider::Tokistar(_) => "IES file not found for: "@ + keys[0],
    }
}

/// The prefix of the message when a lookup request cannot be sent.
pub open spec fn lookup_send_prefix(p: Provider) -> Seq<char> {
    match p {
        Provider::Koizumi(_) => "Detail request failed: "@,
        Provider::Tokistar(_) => "Search request failed: "@,
    }
}

/// The prefix of the message when the file request cannot be sent.
pub open spec fn fetch_send_prefix(p: Provider) -> Seq<char> {
    match p {
        Provider::Koizumi(_) => "Download request failed: "@,
        Provider::Tokistar(_) => "ZIP download failed: "@,
    }
}

/// The prefix of the message when the file request has a failure status.
pub open spec fn status_prefix(p: Provider) -> Seq<char> {
    match p {
        Provider::Koizumi(_) => "Download failed with status: "@,
        Provider::Tokistar(_) => "ZIP download failed with status: "@,
    }
}

/// The prefix of the message when the file's body cannot be read.
pub open spec fn body_read_prefix(p: Provider) -> Seq<char> {
    match p {
        Provider::Koizumi(_) => "Failed to read file content: "@,
        Provider::Tokistar(_) => "Failed to read ZIP content: "@,
    }
}

/// The file name a file response's headers give: Koizumi Lighting reads it
/// from Content-Disposition; TOKISTAR names files after archive entries.
pub open spec fn header_original(p: Provider, content_disposition: Option<Seq<char>>) -> Option<Seq<char>> {
    match p {
        Provider::Koizumi(_) => match content_disposition {
            Some(h) => header_filename(h),
            None => None,
        },
        Provider::Tokistar(_) => None,
    }
}

/// `d` is a well-formed failure carrying the message `m`.
pub open spec fn is_failure_with(d: DownloadResult, m: Seq<char>) -> bool {
    &&& d.wf()
    &&& !d.success
    &&& (d.error matches Some(e) && e@ == m)
}

/// `r` finishes the download with a hard error whose message is `m`.
pub open spec fn finishes_with_error(r: Request, m: Seq<char>) -> bool {
    r matches Request::Finished(Err(e)) && e@ == m
}

/// `r` finishes the download with a failed result whose message is `m`.
pub open spec fn finishes_with_failure(r: Request, m: Seq<char>) -> bool {
    r matches Request::Finished(Ok(d)) && is_failure_with(d, m)
}

/// Every outcome a request can finish with is well formed.
pub open spec fn finished_well_formed(r: Request) -> bool {
    r matches Request::Finished(Ok(d)) ==> d.wf()
}

/// The error when an answer does not fit the step the download is at.
pub const UNEXPECTED_REPLY: &'static str = "Unexpected reply for this step of the download";

/// The step after the body of an archive (`bytes`) arrives for the model
/// `id`: the chosen entry's contents are saved to `dest` and named after its
/// base name; an archive without a suitable entry is a failed download; one
/// that cannot be read is an error.
pub open spec fn archive_step(bytes: Seq<u8>, id: Seq<char>, dest: Seq<char>, r: Request, next: Phase) -> bool {
    match zip_names(bytes) {
        None => r matches Request::Finished(Err(_)),
        Some(_) => {
            let listing = archive_listing(bytes);
            if listing.len() == 0 {
                finishes_with_failure(r, "No .ies files found in ZIP"@)
            } else {
                match selected_entry(id, listing) {
                    None => finishes_with_failure(r, "No matching .ies file found for: "@ + id),
                    Some(e) => match zip_entry_data(bytes, e) {
                        Some(c) => (r matches Request::Save { path, bytes: b } && path@ == dest && b@ == c)
                            && (next matches Phase::Write { size, original: Some(o) } && size == c.len() as u64
                            && o@ == base_name(e)),
                        None => r matches Request::Finished(Err(_)),
                    },
                }
            }
        },
    }
}

/// A message: `prefix` followed by `detail`.
fn message(prefix: &str, detail: &str) -> (r: String)
    ensures
        r@ == prefix@ + detail@,
{
    String::from_str(prefix).concat(detail)
}

impl DownloadSession {
    /// The keys to look `model_number` up by with `provider`.
    pub fn lookup_keys(provider: &Provider, model_number: &str, psu: Option<&str>) -> (r: Vec<String>)
        ensures
            r@.map_values(|s: String| s@) == lookup_keys(*provider, model_number@, str_opt(psu)),
            r@.len() >= 1,
    {
        match provider {
            Provider::Koizumi(_) => {
                let id = KoizumiProvider::build_item_id(model_number, psu);
                let retry = match psu {
                    Some(p) => p.unicode_len() > 0,
                    None => false,
                };
                let r = if retry {
                    vec![id, String::from_str(model_number)]
                } else {
                    vec![id]
                };
                assert(r@.map_values(|s: String| s@) =~= lookup_keys(*provider, model_number@, str_opt(psu)));
                r
            },
            Provider::Tokistar(_) => {
                let r = vec![TokistarProvider::extract_partial_fixture_id(model_number)];
                assert(r@.map_values(|s: String| s@) =~= lookup_keys(*provider, model_number@, str_opt(psu)));
                r
            },
        }
    }

    /// The page `key` is looked up on.
    pub fn lookup_url(provider: &Provider, key: &str) -> (r: String)
        ensures
            r@ == lookup_url(*provider, key@),
    {
        match provider {
            Provider::Koizumi(k) => k.detail_page_url(key),
            Provider::Tokistar(t) => t.search_page_url(key),
        }
    }

    /// The download link on a lookup page, if any.
    pub fn page_link(provider: &Provider, html: &str) -> (r: Option<String>)
        ensures
            opt_view(r) == page_link(*provider, html@),
    {
        match provider {
            Provider::Koizumi(k) => k.file_url_from_page(html),
            Provider::Tokistar(_) => TokistarProvider::archive_url_from_page(html),
        }
    }

    /// Starts downloading `model_number` (with the power-supply text `psu`)
    /// to `dest_path`: the first request fetches the page of the first key.
    pub fn start(provider: &Provider, model_number: &str, psu: Option<&str>, dest_path: &str) -> (r: (
        DownloadSession,
        Request,
    ))
        ensures
            r.0.model_number@ == model_number@,
            r.0.dest_path@ == dest_path@,
            r.0.lookups@.map_values(|s: String| s@) == lookup_keys(*provider, model_number@, str_opt(psu)),
            r.0.phase == (Phase::Lookup { attempt: 0 }),
            r.1 matches Request::FetchPage(u) && u@ == lookup_url(
                *provider,
                lookup_keys(*provider, model_number@, str_opt(psu))[0],
            ),
    {
        let lookups = Self::lookup_keys(provider, model_number, psu);
        let url = Self::lookup_url(provider, lookups[0].as_str());
        let ghost views = lookups@.map_values(|s: String| s@);
        assert(views[0] == lookups@[0]@);
        (
            DownloadSession {
                model_number: String::from_str(model_number),
                dest_path: String::from_str(dest_path),
                lookups,
                phase: Phase::Lookup { attempt: 0 },
            },
            Request::FetchPage(url),
        )
    }

    /// The message when no lookup page links a file.
    fn not_found(provider: &Provider, keys: &Vec<String>) -> (r: String)
        requires
            keys@.len() >= 1,
        ensures
            r@ == not_found_message(*provider, keys@.map_values(|s: String| s@)),
    {
        let ghost views = keys@.map_values(|s: String| s@);
        assert(views[0] == keys@[0]@);
        match provider {
            Provider::Koizumi(_) => {
                if keys.len() > 1 {
                    assert(views[1] == keys@[1]@);
                    let mut m = message("IES file not found for: ", keys[0].as_str());
                    m.append(" nor ");
                    m.append(keys[1].as_str());
                    m
                } else {
                    message("IES file not available for: ", keys[0].as_str())
                }
            },
            Provider::Tokistar(_) => message("IES file not found for: ", keys[0].as_str()),
        }
    }

    /// Whether the session is in a state `resume` accepts: it has a key to
    /// look up, and a lookup in progress is one of its keys.
    pub fn can_resume(&self) -> (r: bool)
        ensures
            r == (self.lookups@.len() >= 1 && (self.phase matches Phase::Lookup { attempt } ==> attempt
                < self.lookups@.len())),
    {
        self.lookups.len() >= 1 && match self.phase {
            Phase::Lookup { attempt } => attempt < self.lookups.len(),
            _ => true,
        }
    }

    /// Takes the next step after `reply`, the answer to the last request:
    /// moves on and says what to do next, or finishes with the outcome.
    pub fn resume(&mut self, provider: &Provider, reply: Reply) -> (r: Request)
        requires
            old(self).lookups@.len() >= 1,
            old(self).phase matches Phase::Lookup { attempt } ==> attempt < old(self).lookups@.len(),
        ensures
            final(self).model_number == old(self).model_number,
            final(self).dest_path == old(self).dest_path,
            final(self).lookups == old(self).lookups,
            final(self).phase matches Phase::Lookup { attempt } ==> attempt < final(self).lookups@.len(),
            (r is Finished) == (final(self).phase is Done),
            finished_well_formed(r),
            match (old(self).phase, reply) {
                (Phase::Lookup { attempt }, Reply::Page(html)) => {
                    let keys = old(self).lookups@.map_values(|s: String| s@);
                    match page_link(*provider, html@) {
                        Some(u) => (r matches Request::FetchFile(f) && f@ == u) && final(self).phase
                            is Fetch,
                        None => if attempt + 1 < keys.len() {
                            (r matches Request::FetchPage(f) && f@ == lookup_url(*provider, keys[attempt + 1]))
                                && final(self).phase == (Phase::Lookup { attempt: (attempt + 1) as usize })
                        } else {
                            finishes_with_failure(r, not_found_message(*provider, keys))
                        },
                    }
                },
                (Phase::Lookup { .. }, Reply::SendFailed(e)) => finishes_with_error(
                    r,
                    lookup_send_prefix(*provider) + e@,
                ),
                (Phase::Lookup { .. }, Reply::ReadFailed(e)) => finishes_with_error(
                    r,
                    "Failed to read response: "@ + e@,
                ),
                (Phase::Fetch, Reply::Head { ok, status, content_disposition }) => if ok {
                    r is ReadBody && (final(self).phase matches Phase::Read { original } && opt_view(
                        original,
                    ) == header_original(*provider, opt_view(content_disposition)))
                } else {
                    finishes_with_failure(r, status_prefix(*provider) + status@)
                },
                (Phase::Fetch, Reply::SendFailed(e)) => finishes_with_error(
                    r,
                    fetch_send_prefix(*provider) + e@,
                ),
                (Phase::Read { original }, Reply::Body(bytes)) => match *provider {
                    Provider::Koizumi(_) => (r matches Request::Save { path, bytes: b } && path@
                        == old(self).dest_path@ && b@ == bytes@) && final(self).phase == (Phase::Write {
                        size: bytes@.len() as u64,
                        original,
                    }),
                    Provider::Tokistar(_) => archive_step(
                        bytes@,
                        old(self).model_number@,
                        old(self).dest_path@,
                        r,
                        final(self).phase,
                    ),
                },
                (Phase::Read { .. }, Reply::ReadFailed(e)) => finishes_with_error(
                    r,
                    body_read_prefix(*provider) + e@,
                ),
                (Phase::Write { size, original }, Reply::Saved) => r matches Request::Finished(Ok(d))
                    && d.wf() && d.success && d.file_size == Some(size) && d.original_filename
                    == original && opt_view(d.file_path) == Some(old(self).dest_path@),
                (Phase::Write { .. }, Reply::DirFailed(e)) => finishes_with_error(
                    r,
                    "Failed to create directory: "@ + e@,
                ),
                (Phase::Write { .. }, Reply::WriteFailed(e)) => finishes_with_error(
                    r,
                    "Failed to write file: "@ + e@,
                ),
                _ => finishes_with_error(r, UNEXPECTED_REPLY@),
            },
    {
        let mut phase = Phase::Done;
        core::mem::swap(&mut self.phase, &mut phase);
        assert(phase == old(self).phase);
        assert(self.lookups == old(self).lookups);
        match (phase, reply) {
            (Phase::Lookup { attempt }, Reply::Page(html)) => {
                assert(old(self).phase == (Phase::Lookup { attempt }));
                assert(attempt < self.lookups.len());
                match Self::page_link(provider, html.as_str()) {
                    Some(url) => {
                        self.phase = Phase::Fetch;
                        Request::FetchFile(url)
                    },
                    None => {
                        if attempt + 1 < self.lookups.len() {
                            let ghost keys = self.lookups@.map_values(|s: String| s@);
                            assert(keys[attempt + 1] == self.lookups@[attempt + 1]@);
                            let url = Self::lookup_url(provider, self.lookups[attempt + 1].as_str());
                            self.phase = Phase::Lookup { attempt: attempt + 1 };
                            Request::FetchPage(url)
                        } else {
                            let m = Self::not_found(provider, &self.lookups);
                            Request::Finished(Ok(DownloadResult::failure(m)))
                        }
                    },
                }
            },
            (Phase::Lookup { .. }, Reply::SendFailed(e)) => {
                let prefix = match provider {
                    Provider::Koizumi(_) => "Detail request failed: ",
                    Provider::Tokistar(_) => "Search request failed: ",
                };
                Request::Finished(Err(message(prefix, e.as_str())))
            },
            (Phase::Lookup { .. }, Reply::ReadFailed(e)) => {
                Request::Finished(Err(message("Failed to read response: ", e.as_str())))
            },
            (Phase::Fetch, Reply::Head { ok, status, content_disposition }) => {
                if ok {
                    let original = match provider {
                        Provider::Koizumi(_) => match content_disposition {
                            Some(h) => KoizumiProvider::extract_filename_from_header(h.as_str()),
                            None => None,
                        },
                        Provider::Tokistar(_) => None,
                    };
                    self.phase = Phase::Read { original };
                    Request::ReadBody
                } else {
                    let prefix = match provider {
                        Provider::Koizumi(_) => "Download failed with status: ",
                        Provider::Tokistar(_) => "ZIP download failed with status: ",
                    };
                    Request::Finished(Ok(DownloadResult::failure(message(prefix, status.as_str()))))
                }
            },
            (Phase::Fetch, Reply::SendFailed(e)) => {
                let prefix = match provider {
                    Provider::Koizumi(_) => "Download request failed: ",
                    Provider::Tokistar(_) => "ZIP download failed: ",
                };
                Request::Finished(Err(message(prefix, e.as_str())))
            },
            (Phase::Read { original }, Reply::Body(bytes)) => {
                match provider {
                    Provider::Koizumi(_) => {
                        let size = bytes.len() as u64;
                        self.phase = Phase::Write { size, original };
                        Request::Save { path: self.dest_path.clone(), bytes }
                    },
                    Provider::Tokistar(_) => {
                        match TokistarProvider::unpack_archive(bytes, self.model_number.as_str()) {
                            Unpacked::Entry { name, contents } => {
                                let size = contents.len() as u64;
                                let base = TokistarProvider::entry_base_name(name.as_str());
                                self.phase = Phase::Write { size, original: Some(base) };
                                Request::Save { path: self.dest_path.clone(), bytes: contents }
                            },
                            Unpacked::Missing(m) => Request::Finished(Ok(DownloadResult::failure(m))),
                            Unpacked::Broken(m) => Request::Finished(Err(m)),
                        }
                    },
                }
            },
            (Phase::Read { .. }, Reply::ReadFailed(e)) => {
                let prefix = match provider {
                    Provider::Koizumi(_) => "Failed to read file content: ",
                    Provider::Tokistar(_) => "Failed to read ZIP content: ",
                };
                Request::Finished(Err(message(prefix, e.as_str())))
            },
            (Phase::Write { size, original }, Reply::Saved) => {
                Request::Finished(Ok(DownloadResult::success(self.dest_path.clone(), size, original)))
            },
            (Phase::Write { .. }, Reply::DirFailed(e)) => {
                Request::Finished(Err(message("Failed to create directory: ", e.as_str())))
            },
            (Phase::Write { .. }, Reply::WriteFailed(e)) => {
                Request::Finished(Err(message("Failed to write file: ", e.as_str())))
            },
            _ => Request::Finished(Err(String::from_str(UNEXPECTED_REPLY))),
        }
    }
}

} // verus!
