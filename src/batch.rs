//! Driving a batch of downloads as a step machine.
//!
//! Items are taken in request order. For each one an observer is told that it
//! is being processed; its maker's provider is looked up (an unknown maker
//! fails the item, not the batch); the file is downloaded to a temporary path
//! named after the item, then moved to the name the provider gives it; finally
//! the observer is told how the item ended. The caller performs each download
//! and move and reports back; the machine keeps the per-item results, in
//! request order, and the tallies.

use vstd::prelude::*;
use crate::archive::opt_view;
use crate::provider::{DownloadResult, ManufacturerProvider};
use crate::registry::ProviderRegistry;
use crate::session::is_failure_with;

verus! {

/// A progress notification for one item.
#[derive(Debug, Clone, PartialEq, Eq)]
pub struct DownloadProgressEvent {
    /// The item's Spec No.
    pub spec_no: String,
    /// `processing`, `success` or `error`.
    pub status: String,
    /// The error message, for `error` only.
    pub error: Option<String>,
}

/// Where a batch stands.
#[derive(Debug, Clone, PartialEq, Eq)]
pub struct BatchProgress {
    /// Items finished so far.
    pub current: usize,
    pub total: usize,
    /// Model number of the item in progress (empty once all are done).
    pub current_model: String,
    pub success_count: usize,
    pub failure_count: usize,
}

/// One unit of work.
#[derive(Debug, Clone, PartialEq, Eq)]
pub struct BatchDownloadItem {
    /// Identifies the item; used in file names and notifications.
    pub spec_no: String,
    pub manufacturer: String,
    pub model_number: String,
    /// The power-supply text, for makers whose files depend on it.
    pub psu: Option<String>,
}

/// A batch: the items, in order, and the directory files are saved in.
#[derive(Debug, Clone, PartialEq, Eq)]
pub struct BatchDownloadRequest {
    pub items: Vec<BatchDownloadItem>,
    pub dest_dir: String,
}

/// How one item ended.
#[derive(Debug, Clone, PartialEq, Eq)]
pub struct SingleDownloadResult {
    pub spec_no: String,
    pub model_number: String,
    pub result: DownloadResult,
}

/// How a batch ended: the tallies and each item's result, in request order.
#[derive(Debug, Clone, PartialEq, Eq)]
pub struct BatchDownloadResult {
    pub success_count: usize,
    pub failure_count: usize,
    pub results: Vec<SingleDownloadResult>,
}

/// The work the caller is to do next.
pub enum Work {
    /// Download the model with the registry's provider number `provider`
    /// to `dest_path`, and answer with `BatchEvent::Downloaded`.
    Download { provider: usize, model_number: String, psu: Option<String>, dest_path: String },
    /// Move the file, and answer with `BatchEvent::Renamed`.
    Rename { from: String, to: String },
    /// The batch is over: its outcome is `BatchRun::into_result`.
    Finish,
}

/// Notifications to deliver, in order, and then the work to do.
pub struct BatchStep {
    pub notices: Vec<DownloadProgressEvent>,
    pub work: Work,
}

/// What came of the last work.
pub enum BatchEvent {
    /// The download ended: its result, or a hard error.
    Downloaded(Result<DownloadResult, String>),
    /// The move ended: its error message on failure.
    Renamed(Result<(), String>),
}

/// Where the current item stands.
pub enum Stage {
    /// Downloading with provider number `provider` to `temp_path`.
    Downloading { provider: usize, temp_path: String },
    /// Moving the downloaded file to `final_path`.
    Renaming { result: DownloadResult, final_path: String },
    /// All items are done.
    Finished,
}

/// The message for an answer that does not fit the item's step.
pub const UNEXPECTED_EVENT: &'static str = "Unexpected event for this step of the batch";

/// The number of successful results.
pub open spec fn success_total(rs: Seq<SingleDownloadResult>) -> nat
    decreases rs.len(),
{
    if rs.len() == 0 {
        0
    } else {
        success_total(rs.drop_last()) + if rs.last().result.success {
            1nat
        } else {
            0nat
        }
    }
}

/// `r` is a well-formed result recorded for `item`.
pub open spec fn records(r: SingleDownloadResult, item: BatchDownloadItem) -> bool {
    &&& r.spec_no@ == item.spec_no@
    &&& r.model_number@ == item.model_number@
    &&& r.result.wf()
}

/// `out` is a finished batch for `items`: one well-formed result per item,
/// in order, with tallies that count them.
pub open spec fn completes(out: BatchDownloadResult, items: Seq<BatchDownloadItem>) -> bool {
    &&& out.results@.len() == items.len()
    &&& forall|k: int| 0 <= k < items.len() ==> records(#[trigger] out.results@[k], items[k])
    &&& out.success_count == success_total(out.results@)
    &&& out.success_count + out.failure_count == items.len()
}

/// Where an item is downloaded before it gets its final name.
pub open spec fn temp_path_of(dest_dir: Seq<char>, spec_no: Seq<char>) -> Seq<char> {
    dest_dir + "/temp_"@ + spec_no + ".ies"@
}

/// The message for an item whose maker no provider handles.
pub open spec fn no_provider_message(manufacturer: Seq<char>) -> Seq<char> {
    "No provider for: "@ + manufacturer
}

/// `e` tells that the item `spec_no` is being processed.
pub open spec fn is_processing_notice(e: DownloadProgressEvent, spec_no: Seq<char>) -> bool {
    e.spec_no@ == spec_no && e.status@ == "processing"@ && e.error is None
}

/// `e` tells how the item `spec_no` ended with `d`.
pub open spec fn is_outcome_notice(e: DownloadProgressEvent, spec_no: Seq<char>, d: DownloadResult) -> bool {
    &&& e.spec_no@ == spec_no
    &&& e.status@ == if d.success { "success"@ } else { "error"@ }
    &&& opt_view(e.error) == opt_view(d.error)
}

/// From position `from` on, `notices` holds for each item `j` in `lo..hi`
/// its processing notice followed by the notice of how it ended.
pub open spec fn announces_items(
    notices: Seq<DownloadProgressEvent>,
    from: int,
    items: Seq<BatchDownloadItem>,
    results: Seq<SingleDownloadResult>,
    lo: int,
    hi: int,
) -> bool {
    &&& 0 <= from
    &&& lo <= hi
    &&& from + 2 * (hi - lo) <= notices.len()
    &&& forall|j: int|
        lo <= j < hi ==> {
            &&& is_processing_notice(notices[from + 2 * (j - lo)], items[j].spec_no@)
            &&& is_outcome_notice(notices[from + 2 * (j - lo) + 1], items[j].spec_no@, (#[trigger] results[j]).result)
        }
}

/// A batch in progress over the registry `registry`.
pub struct BatchRun<'a> {
    pub registry: &'a ProviderRegistry,
    pub request: BatchDownloadRequest,
    /// The finished items' results, in request order.
    pub results: Vec<SingleDownloadResult>,
    pub success_count: usize,
    pub failure_count: usize,
    pub stage: Stage,
}

impl<'a> BatchRun<'a> {
    /// The results so far match the first items and the tallies count them.
    pub open spec fn results_wf(&self) -> bool {
        let items = self.request.items@;
        let rs = self.results@;
        &&& rs.len() <= items.len()
        &&& forall|k: int| 0 <= k < rs.len() ==> records(#[trigger] rs[k], items[k])
        &&& self.success_count == success_total(rs)
        &&& self.success_count + self.failure_count == rs.len()
    }

    /// The results are well formed, and the current item (if any) is the
    /// one after them.
    pub open spec fn wf(&self) -> bool {
        let items = self.request.items@;
        let rs = self.results@;
        &&& self.results_wf()
        &&& match self.stage {
            Stage::Downloading { provider, temp_path } => {
                &&& rs.len() < items.len()
                &&& provider < self.registry.spec_providers().len()
            },
            Stage::Renaming { result, final_path } => {
                &&& rs.len() < items.len()
                &&& result.wf()
                &&& result.success
            },
            Stage::Finished => rs.len() == items.len(),
        }
    }

    /// The registry's provider for item `k`, by its maker.
    pub open spec fn provider_of(&self, k: int) -> Option<int> {
        self.registry.provider_for(self.request.items@[k].manufacturer@)
    }

    /// Where the item `spec_no` is downloaded before it gets its final name.
    pub fn temp_path(dest_dir: &str, spec_no: &str) -> (r: String)
        ensures
            r@ == temp_path_of(dest_dir@, spec_no@),
    {
        let mut r = String::from_str(dest_dir);
        r.append("/temp_");
        r.append(spec_no);
        r.append(".ies");
        r
    }

    /// A file `name` in the directory `dest_dir`.
    pub fn path_in(dest_dir: &str, name: &str) -> (r: String)
        ensures
            r@ == dest_dir@ + "/"@ + name@,
    {
        let mut r = String::from_str(dest_dir);
        r.append("/");
        r.append(name);
        r
    }

    /// The notice that the item `spec_no` is being processed.
    pub fn processing_notice(spec_no: &str) -> (r: DownloadProgressEvent)
        ensures
            is_processing_notice(r, spec_no@),
    {
        DownloadProgressEvent {
            spec_no: String::from_str(spec_no),
            status: String::from_str("processing"),
            error: None,
        }
    }

    /// The notice of how the item `spec_no` ended with `d`.
    pub fn outcome_notice(spec_no: &str, d: &DownloadResult) -> (r: DownloadProgressEvent)
        ensures
            is_outcome_notice(r, spec_no@, *d),
    {
        let error = match &d.error {
            Some(e) => Some(e.clone()),
            None => None,
        };
        DownloadProgressEvent {
            spec_no: String::from_str(spec_no),
            status: String::from_str(if d.success { "success" } else { "error" }),
            error,
        }
    }

    /// Records the current item's result and the notice of how it ended.
    fn record(&mut self, result: DownloadResult, notices: &mut Vec<DownloadProgressEvent>)
        requires
            old(self).results_wf(),
            old(self).results@.len() < old(self).request.items@.len(),
            result.wf(),
        ensures
            final(self).registry == old(self).registry,
            final(self).request == old(self).request,
            final(self).stage == old(self).stage,
            final(self).results@ == old(self).results@.push(final(self).results@.last()),
            final(self).results@.last().result == result,
            final(self).results_wf(),
            final(notices)@.len() == old(notices)@.len() + 1,
            final(notices)@.subrange(0, old(notices)@.len() as int) == old(notices)@,
            is_outcome_notice(
                final(notices)@.last(),
                old(self).request.items@[old(self).results@.len() as int].spec_no@,
                result,
            ),
    {
        let k = self.results.len();
        let n = self.request.items.len();
        assert(self.success_count <= k < n);
        let item = &self.request.items[k];
        notices.push(Self::outcome_notice(item.spec_no.as_str(), &result));
        let ok = result.success;
        let entry = SingleDownloadResult {
            spec_no: String::from_str(item.spec_no.as_str()),
            model_number: String::from_str(item.model_number.as_str()),
            result,
        };
        let ghost before = self.results@;
        self.results.push(entry);
        assert(self.results@.drop_last() =~= before);
        if ok {
            self.success_count = self.success_count + 1;
        } else {
            self.failure_count = self.failure_count + 1;
        }
    }

    /// Goes through items until one needs a download: announces each, and
    /// fails at once those whose maker no provider handles. Ends the batch
    /// when no item is left.
    fn advance(&mut self, earlier: Vec<DownloadProgressEvent>) -> (r: BatchStep)
        requires
            old(self).results_wf(),
        ensures
            final(self).wf(),
            final(self).registry == old(self).registry,
            final(self).request == old(self).request,
            old(self).results@.len() <= final(self).results@.len(),
            final(self).results@.subrange(0, old(self).results@.len() as int) == old(self).results@,
            r.notices@.len() >= earlier@.len(),
            r.notices@.subrange(0, earlier@.len() as int) == earlier@,
            r.notices@.len() == earlier@.len() + 2 * (final(self).results@.len() - old(self).results@.len())
                + if r.work is Download { 1int } else { 0int },
            announces_items(
                r.notices@,
                earlier@.len() as int,
                final(self).request.items@,
                final(self).results@,
                old(self).results@.len() as int,
                final(self).results@.len() as int,
            ),
            forall|k: int|
                old(self).results@.len() <= k < final(self).results@.len() ==> {
                    &&& old(self).provider_of(k) is None
                    &&& #[trigger] final(self).results@[k].result.error matches Some(e) && e@
                        == no_provider_message(final(self).request.items@[k].manufacturer@)
                },
            match r.work {
                Work::Download { provider, model_number, psu, dest_path } => {
                    let k = final(self).results@.len() as int;
                    let item = final(self).request.items@[k];
                    &&& k < final(self).request.items@.len()
                    &&& final(self).stage == (Stage::Downloading { provider, temp_path: dest_path })
                    &&& old(self).provider_of(k) == Some(provider as int)
                    &&& model_number@ == item.model_number@
                    &&& opt_view(psu) == opt_view(item.psu)
                    &&& dest_path@ == temp_path_of(final(self).request.dest_dir@, item.spec_no@)
                    &&& r.notices@.last() matches e && is_processing_notice(e, item.spec_no@)
                },
                Work::Finish => final(self).stage is Finished,
                Work::Rename { .. } => false,
            },
    {
        let ghost start_notices = earlier@;
        let mut notices = earlier;
        let ghost start = self.results@;
        while self.results.len() < self.request.items.len()
            invariant
                self.results_wf(),
                self.registry == old(self).registry,
                self.request == old(self).request,
                start == old(self).results@,
                start_notices == earlier@,
                start_notices == notices@.subrange(0, start_notices.len() as int),
                start_notices.len() <= notices@.len(),
                notices@.len() == start_notices.len() + 2 * (self.results@.len() - start.len()),
                announces_items(
                    notices@,
                    start_notices.len() as int,
                    self.request.items@,
                    self.results@,
                    start.len() as int,
                    self.results@.len() as int,
                ),
                start.len() <= self.results@.len(),
                self.results@.subrange(0, start.len() as int) == start,
                forall|k: int|
                    start.len() <= k < self.results@.len() ==> {
                        &&& old(self).provider_of(k) is None
                        &&& #[trigger] self.results@[k].result.error matches Some(e) && e@
                            == no_provider_message(self.request.items@[k].manufacturer@)
                    },
            decreases self.request.items@.len() - self.results@.len(),
        {
            let k = self.results.len();
            let spec_no = self.request.items[k].spec_no.as_str();
            let ghost notices_before = notices@;
            let ghost results_before = self.results@;
            notices.push(Self::processing_notice(spec_no));
            assert(notices@.subrange(0, start_notices.len() as int) =~= start_notices);
            let ghost pushed = notices@;
            match self.registry.provider_index(self.request.items[k].manufacturer.as_str()) {
                Some(p) => {
                    let item = &self.request.items[k];
                    let temp = Self::temp_path(self.request.dest_dir.as_str(), item.spec_no.as_str());
                    let psu = match &item.psu {
                        Some(s) => Some(String::from_str(s.as_str())),
                        None => None,
                    };
                    self.stage = Stage::Downloading { provider: p, temp_path: temp.clone() };
                    return BatchStep {
                        notices,
                        work: Work::Download {
                            provider: p,
                            model_number: String::from_str(item.model_number.as_str()),
                            psu,
                            dest_path: temp,
                        },
                    };
                },
                None => {
                    let m = String::from_str("No provider for: ").concat(
                        self.request.items[k].manufacturer.as_str(),
                    );
                    self.record(DownloadResult::failure(m), &mut notices);
                    assert(notices@.subrange(0, start_notices.len() as int) =~= start_notices);
                    assert(self.results@.subrange(0, start.len() as int) =~= start);
                    proof {
                        let from = start_notices.len() as int;
                        let lo = start.len() as int;
                        assert forall|j: int| lo <= j < self.results@.len() implies {
                            &&& is_processing_notice(notices@[from + 2 * (j - lo)], self.request.items@[j].spec_no@)
                            &&& is_outcome_notice(
                                notices@[from + 2 * (j - lo) + 1],
                                self.request.items@[j].spec_no@,
                                (#[trigger] self.results@[j]).result,
                            )
                        } by {
                            assert(notices@[from + 2 * (j - lo)] == pushed[from + 2 * (j - lo)]);
                            if j < k {
                                assert(notices@[from + 2 * (j - lo) + 1] == pushed[from + 2 * (j - lo) + 1]);
                                assert(self.results@[j] == results_before[j]);
                                assert(pushed[from + 2 * (j - lo)] == notices_before[from + 2 * (j - lo)]);
                                assert(pushed[from + 2 * (j - lo) + 1] == notices_before[from + 2 * (j - lo) + 1]);
                            } else {
                                assert(notices@[from + 2 * (j - lo) + 1] == notices@.last());
                                assert(pushed[from + 2 * (j - lo)] == pushed.last());
                            }
                        }
                    }
                },
            }
        }
        self.stage = Stage::Finished;
        BatchStep { notices, work: Work::Finish }
    }

    /// The outcome of a finished batch.
    pub fn into_result(self) -> (r: BatchDownloadResult)
        requires
            self.wf(),
            self.stage is Finished,
        ensures
            completes(r, self.request.items@),
            r.results@ == self.results@,
    {
        BatchDownloadResult {
            success_count: self.success_count,
            failure_count: self.failure_count,
            results: self.results,
        }
    }


    /// Starts a batch over `registry`: announces items and fails those whose
    /// maker is unknown until one needs a download, or the batch is over.
    pub fn start(registry: &'a ProviderRegistry, request: BatchDownloadRequest) -> (r: (BatchRun<'a>, BatchStep))
        ensures
            r.0.wf(),
            r.0.registry == registry,
            r.0.request == request,
            r.1.notices@.len() == 2 * r.0.results@.len() + if r.1.work is Download { 1int } else { 0int },
            announces_items(r.1.notices@, 0, request.items@, r.0.results@, 0, r.0.results@.len() as int),
            forall|k: int|
                0 <= k < r.0.results@.len() ==> {
                    &&& r.0.provider_of(k) is None
                    &&& #[trigger] r.0.results@[k].result.error matches Some(e) && e@
                        == no_provider_message(request.items@[k].manufacturer@)
                },
            match r.1.work {
                Work::Download { provider, model_number, psu, dest_path } => {
                    let k = r.0.results@.len() as int;
                    let item = request.items@[k];
                    &&& k < request.items@.len()
                    &&& r.0.stage == (Stage::Downloading { provider, temp_path: dest_path })
                    &&& r.0.provider_of(k) == Some(provider as int)
                    &&& model_number@ == item.model_number@
                    &&& opt_view(psu) == opt_view(item.psu)
                    &&& dest_path@ == temp_path_of(request.dest_dir@, item.spec_no@)
                    &&& r.1.notices@.last() matches e && is_processing_notice(e, item.spec_no@)
                },
                Work::Finish => r.0.stage is Finished,
                Work::Rename { .. } => false,
            },
    {
        let mut run = BatchRun {
            registry,
            request,
            results: Vec::new(),
            success_count: 0,
            failure_count: 0,
            stage: Stage::Finished,
        };
        let step = run.advance(Vec::new());
        (run, step)
    }

    /// Takes the next step after `event`, the answer to the last work: a
    /// successful download is moved to its final name; any other outcome
    /// ends the item, and the batch goes on with the next ones.
    pub fn step(&mut self, event: BatchEvent) -> (r: BatchStep)
        requires
            old(self).wf(),
            !(old(self).stage is Finished),
            event matches BatchEvent::Downloaded(Ok(d)) ==> d.wf(),
        ensures
            final(self).wf(),
            final(self).registry == old(self).registry,
            final(self).request == old(self).request,
            old(self).results@.len() <= final(self).results@.len(),
            final(self).results@.subrange(0, old(self).results@.len() as int) == old(self).results@,
            (r.work is Rename) == (old(self).stage is Downloading && (event matches BatchEvent::Downloaded(
                Ok(d),
            ) && d.success)),
            ({
                let k = old(self).results@.len() as int;
                let item = old(self).request.items@[k];
                match (old(self).stage, event) {
                    (Stage::Downloading { provider, temp_path }, BatchEvent::Downloaded(Ok(d))) => if d.success {
                        &&& r.notices@.len() == 0
                        &&& final(self).results@ == old(self).results@
                        &&& final(self).stage matches Stage::Renaming { result, final_path } && result == d
                            && final_path@ == old(self).request.dest_dir@ + "/"@
                            + old(self).registry.spec_providers()[provider as int].spec_filename(
                            item.spec_no@,
                            item.model_number@,
                            opt_view(item.psu),
                            opt_view(d.original_filename),
                        )
                        &&& (r.work matches Work::Rename { from, to } && from@ == temp_path@ && (final(self).stage matches Stage::Renaming { final_path, .. } && to@ == final_path@))
                    } else {
                        final(self).results@[k].result == d
                    },
                    (Stage::Downloading { .. }, BatchEvent::Downloaded(Err(e))) => is_failure_with(
                        final(self).results@[k].result,
                        e@,
                    ),
                    (Stage::Renaming { result, final_path }, BatchEvent::Renamed(Ok(()))) => {
                        let d = final(self).results@[k].result;
                        &&& d.success == result.success
                        &&& d.file_size == result.file_size
                        &&& d.original_filename == result.original_filename
                        &&& d.error == result.error
                        &&& d.file_path == Some(final_path)
                    },
                    (Stage::Renaming { .. }, BatchEvent::Renamed(Err(e))) => is_failure_with(
                        final(self).results@[k].result,
                        "Failed to rename file: "@ + e@,
                    ),
                    _ => is_failure_with(final(self).results@[k].result, UNEXPECTED_EVENT@),
                }
            }),
            !(r.work is Rename) ==> {
                let k = old(self).results@.len() as int;
                &&& final(self).results@.len() > k
                &&& r.notices@.len() == 1 + 2 * (final(self).results@.len() - k - 1) + if r.work is Download {
                    1int
                } else {
                    0int
                }
                &&& announces_items(
                    r.notices@,
                    1,
                    final(self).request.items@,
                    final(self).results@,
                    k + 1,
                    final(self).results@.len() as int,
                )
                &&& is_outcome_notice(
                    r.notices@[0],
                    old(self).request.items@[k].spec_no@,
                    final(self).results@[k].result,
                )
                &&& forall|j: int|
                    k < j < final(self).results@.len() ==> {
                        &&& old(self).provider_of(j) is None
                        &&& #[trigger] final(self).results@[j].result.error matches Some(e) && e@
                            == no_provider_message(final(self).request.items@[j].manufacturer@)
                    }
                &&& match r.work {
                    Work::Download { provider, model_number, psu, dest_path } => {
                        let j = final(self).results@.len() as int;
                        let item = final(self).request.items@[j];
                        &&& final(self).stage == (Stage::Downloading { provider, temp_path: dest_path })
                        &&& old(self).provider_of(j) == Some(provider as int)
                        &&& model_number@ == item.model_number@
                        &&& opt_view(psu) == opt_view(item.psu)
                        &&& dest_path@ == temp_path_of(final(self).request.dest_dir@, item.spec_no@)
                        &&& r.notices@.last() matches e && is_processing_notice(e, item.spec_no@)
                    },
                    _ => final(self).stage is Finished,
                }
            },
    {
        let k = self.results.len();
        let mut stage = Stage::Finished;
        core::mem::swap(&mut self.stage, &mut stage);
        assert(stage == old(self).stage);
        let outcome = match (stage, event) {
            (Stage::Downloading { provider, temp_path }, BatchEvent::Downloaded(Ok(d))) => {
                if d.success {
                    let item = &self.request.items[k];
                    let psu = match &item.psu {
                        Some(p) => Some(p.as_str()),
                        None => None,
                    };
                    let original = match &d.original_filename {
                        Some(o) => Some(o.as_str()),
                        None => None,
                    };
                    let name = self.registry.provider_at(provider).generate_filename(
                        item.spec_no.as_str(),
                        item.model_number.as_str(),
                        psu,
                        original,
                    );
                    let final_path = Self::path_in(self.request.dest_dir.as_str(), name.as_str());
                    let to = final_path.clone();
                    self.stage = Stage::Renaming { result: d, final_path };
                    return BatchStep { notices: Vec::new(), work: Work::Rename { from: temp_path, to } };
                }
                d
            },
            (Stage::Downloading { .. }, BatchEvent::Downloaded(Err(e))) => DownloadResult::failure(e),
            (Stage::Renaming { result, final_path }, BatchEvent::Renamed(Ok(()))) => {
                let mut d = result;
                d.file_path = Some(final_path);
                d
            },
            (Stage::Renaming { .. }, BatchEvent::Renamed(Err(e))) => DownloadResult::failure(
                String::from_str("Failed to rename file: ").concat(e.as_str()),
            ),
            _ => DownloadResult::failure(String::from_str(UNEXPECTED_EVENT)),
        };
        let mut notices: Vec<DownloadProgressEvent> = Vec::new();
        self.record(outcome, &mut notices);
        let ghost after = self.results@;
        let ghost first = notices@;
        let r = self.advance(notices);
        proof {
            assert(r.notices@[0] == r.notices@.subrange(0, first.len() as int)[0]);
            assert(r.notices@[0] == first[0]);
            assert(self.results@.subrange(0, after.len() as int) == after);
            assert(self.results@[k as int] == after[k as int]);
            assert(after.subrange(0, k as int) =~= old(self).results@);
            assert(self.results@.subrange(0, k as int) =~= old(self).results@) by {
                assert(self.results@.subrange(0, k as int) =~= after.subrange(0, k as int));
            }
        }
        r
    }

    /// The progress of the batch: items done, tallies, and the model in progress.
    pub fn progress(&self) -> (r: BatchProgress)
        requires
            self.wf(),
        ensures
            r.current == self.results@.len(),
            r.total == self.request.items@.len(),
            r.success_count == self.success_count,
            r.failure_count == self.failure_count,
            r.current_model@ == if self.results@.len() < self.request.items@.len() {
                self.request.items@[self.results@.len() as int].model_number@
            } else {
                Seq::empty()
            },
    {
        let k = self.results.len();
        let current_model = if k < self.request.items.len() {
            String::from_str(self.request.items[k].model_number.as_str())
        } else {
            String::new()
        };
        BatchProgress {
            current: k,
            total: self.request.items.len(),
            current_model,
            success_count: self.success_count,
            failure_count: self.failure_count,
        }
    }
}

/// Every result of a finished batch has exactly one of the two shapes: a
/// saved file with its path and size and no error, or a failure with a
/// message and no path, size or original name.
pub proof fn lemma_batch_results_have_one_shape(out: BatchDownloadResult, items: Seq<BatchDownloadItem>, k: int)
    requires
        completes(out, items),
        0 <= k < items.len(),
    ensures
        ({
            let d = out.results@[k].result;
            let saved = d.success && d.file_path is Some && d.file_size is Some && d.error is None;
            let failed = !d.success && d.file_path is None && d.file_size is None
                && d.original_filename is None && d.error is Some;
            saved != failed
        }),
{
    assert(records(out.results@[k], items[k]));
}

} // verus!
