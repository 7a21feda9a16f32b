//! Decisions of the model download: whether a file on disk is kept, whether
//! the server's answer is usable, and when progress is reported.

use vstd::prelude::*;

use crate::error::TranscribeError;
use crate::text::{decimal, decimal_string, hex_lower, hex_lower_chars, str_eq};

verus! {

/// Files smaller than this are partial downloads, not models.
pub const MIN_MODEL_BYTES: u64 = 10_000_000;

/// Progress is reported at most once per this many milliseconds.
pub const PROGRESS_INTERVAL_MS: u64 = 120;

/// What to do with the model file before downloading.
#[derive(Debug, Clone, Copy, PartialEq, Eq, Structural)]
pub enum ExistingModel {
    /// A complete file is on disk: use it.
    Keep,
    /// A partial file is on disk: remove it and download again.
    Replace,
    /// Nothing on disk: download.
    Absent,
}

/// What to do with a model file of `file_len` bytes (`None` when absent):
/// files of at least `MIN_MODEL_BYTES` are complete.
pub open spec fn model_file_action(file_len: Option<u64>) -> ExistingModel {
    match file_len {
        None => ExistingModel::Absent,
        Some(n) => if n >= MIN_MODEL_BYTES {
            ExistingModel::Keep
        } else {
            ExistingModel::Replace
        },
    }
}

/// Decides from the size of the file on disk (`None` when there is none).
pub fn existing_model_action(file_len: Option<u64>) -> (r: ExistingModel)
    ensures
        r == model_file_action(file_len),
{
    match file_len {
        None => ExistingModel::Absent,
        Some(n) => if n >= MIN_MODEL_BYTES {
            ExistingModel::Keep
        } else {
            ExistingModel::Replace
        },
    }
}

/// The reason phrase that the HTTP library gives status `code`, if it knows one.
pub uninterp spec fn http_reason(code: u16) -> Option<Seq<char>>;

/// `reqwest::StatusCode::from_u16` then `StatusCode::canonical_reason`: the
/// phrase of the library's table of registered codes for `code` (such as
/// "Not Found" for 404), or `None` for a code it lacks; `from_u16` refuses
/// codes outside 100 to 999, none of which the table holds.
#[verifier::external_body]
fn canonical_reason(code: u16) -> (r: Option<&'static str>)
    ensures
        r matches Some(s) ==> http_reason(code) == Some(s@),
        r is None ==> http_reason(code) is None,
{
    match reqwest::StatusCode::from_u16(code) {
        Ok(status) => status.canonical_reason(),
        Err(_) => None,
    }
}

/// The status line shown for `code` with reason phrase `reason`.
pub open spec fn status_line(code: u16, reason: Option<Seq<char>>) -> Seq<char> {
    decimal(code as nat) + " "@ + match reason {
        Some(p) => p,
        None => "<unknown status code>"@,
    }
}

/// A 2xx status.
pub open spec fn is_success(code: u16) -> bool {
    200 <= code < 300
}

/// The download error for a server answer with status `code`, whose reason
/// phrase is `reason` (`None` when unknown).
pub fn status_error(code: u16, reason: Option<&str>) -> (e: TranscribeError)
    ensures
        e matches TranscribeError::Download(m) && m@ == "HTTP "@ + status_line(
            code,
            match reason {
                Some(p) => Some(p@),
                None => None,
            },
        ),
{
    let mut m = String::from_str("HTTP ");
    let d = decimal_string(code as usize);
    m.append(d.as_str());
    m.append(" ");
    match reason {
        Some(p) => m.append(p),
        None => m.append("<unknown status code>"),
    }
    TranscribeError::Download(m)
}

/// Accepts a 2xx answer; any other is a download error naming the status.
pub fn check_download_status(code: u16) -> (r: Result<(), TranscribeError>)
    ensures
        is_success(code) ==> r == Ok::<(), TranscribeError>(()),
        !is_success(code) ==> (r matches Err(TranscribeError::Download(m)) && m@ == "HTTP "@
            + status_line(code, http_reason(code))),
{
    if 200 <= code && code < 300 {
        Ok(())
    } else {
        Err(status_error(code, canonical_reason(code)))
    }
}

/// The SHA-256 that a downloaded model must have, as lowercase hex; `None`
/// leaves downloads unchecked.
pub const EXPECTED_SHA256: Option<&'static str> = None;

/// Checks the SHA-256 `digest` of a downloaded model against `expected`
/// (lowercase hex): no expectation, or a match, accepts it; otherwise the
/// error names both hashes.
pub fn check_model_digest(expected: Option<&str>, digest: &[u8]) -> (r: Result<(), TranscribeError>)
    ensures
        expected is None ==> r == Ok::<(), TranscribeError>(()),
        expected matches Some(h) ==> (h@ == hex_lower_chars(digest@) ==> r == Ok::<
            (),
            TranscribeError,
        >(())),
        expected matches Some(h) ==> (h@ != hex_lower_chars(digest@) ==> (r matches Err(
            TranscribeError::HashMismatch { expected: e, actual: a },
        ) && e@ == h@ && a@ == hex_lower_chars(digest@))),
{
    match expected {
        None => Ok(()),
        Some(h) => {
            let actual = hex_lower(digest);
            if str_eq(h, actual.as_str()) {
                Ok(())
            } else {
                Err(TranscribeError::HashMismatch { expected: String::from_str(h), actual })
            }
        },
    }
}

/// A progress report: bytes received so far out of `total`.
#[derive(Debug, Clone, Copy, PartialEq, Eq, Structural)]
pub struct ProgressEvent {
    pub downloaded: u64,
    pub total: u64,
}

/// Byte count and report throttling of one download.
#[derive(Debug, Clone, Copy, PartialEq, Eq, Structural)]
pub struct DownloadProgress {
    /// Size announced by the server, or 0 when it announced none.
    pub total: u64,
    /// Bytes received so far.
    pub downloaded: u64,
    /// When the last report went out, in milliseconds; `None` before the first.
    pub last_report_ms: Option<u64>,
}

/// A report is due at `now_ms` after one at `last_ms` (or none yet).
pub open spec fn report_due(last_ms: Option<u64>, now_ms: u64) -> bool {
    match last_ms {
        None => true,
        Some(t) => now_ms >= t + PROGRESS_INTERVAL_MS,
    }
}

/// The progress after a chunk of `len` bytes at `now_ms`, and the report sent.
pub open spec fn progress_step(p: DownloadProgress, len: u64, now_ms: u64) -> (
    DownloadProgress,
    Option<ProgressEvent>,
) {
    let downloaded = (p.downloaded + len) as u64;
    if report_due(p.last_report_ms, now_ms) {
        (
            DownloadProgress { total: p.total, downloaded, last_report_ms: Some(now_ms) },
            Some(ProgressEvent { downloaded, total: p.total }),
        )
    } else {
        (
            DownloadProgress { total: p.total, downloaded, last_report_ms: p.last_report_ms },
            None,
        )
    }
}

impl DownloadProgress {
    /// A download of `total` announced bytes (0 when unknown), nothing received.
    pub fn new(total: u64) -> (p: DownloadProgress)
        ensures
            p.total == total,
            p.downloaded == 0,
            p.last_report_ms is None,
    {
        DownloadProgress { total, downloaded: 0, last_report_ms: None }
    }

    /// Counts a chunk of `len` bytes received at `now_ms`, and returns a report
    /// when the last one is at least `PROGRESS_INTERVAL_MS` old (the first
    /// chunk is always reported).
    pub fn on_chunk(&mut self, len: u64, now_ms: u64) -> (r: Option<ProgressEvent>)
        requires
            old(self).downloaded + len <= u64::MAX,
        ensures
            (*final(self), r) == progress_step(*old(self), len, now_ms),
            final(self).total == old(self).total,
            final(self).downloaded == old(self).downloaded + len,
            report_due(old(self).last_report_ms, now_ms) ==> r == Some(
                ProgressEvent { downloaded: final(self).downloaded, total: old(self).total },
            ) && final(self).last_report_ms == Some(now_ms),
            !report_due(old(self).last_report_ms, now_ms) ==> (r is None)
                && final(self).last_report_ms == old(self).last_report_ms,
    {
        self.downloaded = self.downloaded + len;
        let due = match self.last_report_ms {
            None => true,
            Some(t) => now_ms.saturating_sub(t) >= PROGRESS_INTERVAL_MS,
        };
        if due {
            self.last_report_ms = Some(now_ms);
            Some(ProgressEvent { downloaded: self.downloaded, total: self.total })
        } else {
            None
        }
    }

    /// The report sent when the stream ends: everything received, out of the
    /// announced size or, when more arrived than announced, the received size.
    pub fn final_report(&self) -> (r: ProgressEvent)
        ensures
            r.downloaded == self.downloaded,
            r.total == (if self.total >= self.downloaded {
                self.total
            } else {
                self.downloaded
            }),
    {
        let total = if self.total >= self.downloaded {
            self.total
        } else {
            self.downloaded
        };
        ProgressEvent { downloaded: self.downloaded, total }
    }
}

/// Total bytes of a run of `(len, now_ms)` chunks.
pub open spec fn chunk_bytes(chunks: Seq<(u64, u64)>) -> nat
    decreases chunks.len(),
{
    if chunks.len() == 0 {
        0
    } else {
        chunk_bytes(chunks.drop_last()) + chunks.last().0 as nat
    }
}

/// The progress after a run of `(len, now_ms)` chunks, and the reports sent,
/// each with the time it went out.
pub open spec fn progress_run(p: DownloadProgress, chunks: Seq<(u64, u64)>) -> (
    DownloadProgress,
    Seq<(u64, ProgressEvent)>,
)
    decreases chunks.len(),
{
    if chunks.len() == 0 {
        (p, Seq::empty())
    } else {
        let (q, reports) = progress_run(p, chunks.drop_last());
        let (len, now) = chunks.last();
        let (q2, r) = progress_step(q, len, now);
        (
            q2,
            match r {
                Some(e) => reports.push((now, e)),
                None => reports,
            },
        )
    }
}

/// Over any run of chunks: every byte is counted once; reports go out at
/// least `PROGRESS_INTERVAL_MS` apart (and that long after any earlier
/// report); their counts never decrease and never exceed what was received;
/// and the first chunk of a fresh download is always reported.
pub proof fn law_progress_run(p: DownloadProgress, chunks: Seq<(u64, u64)>)
    requires
        p.downloaded + chunk_bytes(chunks) <= u64::MAX,
    ensures
        ({
            let (q, reports) = progress_run(p, chunks);
            &&& q.downloaded == p.downloaded + chunk_bytes(chunks)
            &&& q.total == p.total
            &&& forall|i: int|
                0 <= i < reports.len() - 1 ==> #[trigger] reports[i + 1].0 >= reports[i].0
                    + PROGRESS_INTERVAL_MS && reports[i + 1].1.downloaded
                    >= reports[i].1.downloaded
            &&& forall|i: int|
                0 <= i < reports.len() ==> (#[trigger] reports[i]).1.downloaded <= q.downloaded
                    && reports[i].1.total == p.total
            &&& (p.last_report_ms matches Some(t) ==> (reports.len() > 0 ==> reports[0].0 >= t
                + PROGRESS_INTERVAL_MS))
            &&& ((p.last_report_ms is None) && chunks.len() > 0 ==> reports.len() > 0
                && reports[0].0 == chunks[0].1)
            &&& reports.len() > 0 ==> q.last_report_ms == Some(reports.last().0)
            &&& reports.len() == 0 ==> q.last_report_ms == p.last_report_ms
        }),
    decreases chunks.len(),
{
    if chunks.len() > 0 {
        let init = chunks.drop_last();
        assert(chunk_bytes(chunks) == chunk_bytes(init) + chunks.last().0);
        law_progress_run(p, init);
        if init.len() > 0 {
            assert(init[0] == chunks[0]);
        }
    }
}

} // verus!

verus! {

/// The SHA-256 digest of `data`.
pub uninterp spec fn sha256_of(data: Seq<u8>) -> Seq<u8>;

/// A running SHA-256 over the bytes of one download. Verus cannot declare
/// `sha2::Sha256` itself (an alias of generic wrappers bounded by outside
/// traits), so the hasher is held here and known by the bytes it was fed.
#[verifier::external_body]
pub struct ModelHasher {
    inner: sha2::Sha256,
}

/// The bytes fed to `h` so far, in order.
pub uninterp spec fn hashed_bytes(h: ModelHasher) -> Seq<u8>;

impl ModelHasher {
    /// `<sha2::Sha256 as Digest>::new`: a hasher that has been fed nothing.
    #[verifier::external_body]
    pub(crate) fn new() -> (h: ModelHasher)
        ensures
            hashed_bytes(h) == Seq::<u8>::empty(),
    {
        ModelHasher { inner: <sha2::Sha256 as sha2::Digest>::new() }
    }

    /// `Digest::update`: feeds `chunk` after the bytes already fed.
    #[verifier::external_body]
    pub(crate) fn update(&mut self, chunk: &[u8])
        ensures
            hashed_bytes(*final(self)) == hashed_bytes(*old(self)) + chunk@,
    {
        sha2::Digest::update(&mut self.inner, chunk)
    }

    /// `Digest::finalize`: the SHA-256 of every byte fed, as 32 bytes.
    #[verifier::external_body]
    pub(crate) fn finalize(self) -> (r: Vec<u8>)
        ensures
            r@ == sha256_of(hashed_bytes(self)),
    {
        sha2::Digest::finalize(self.inner).to_vec()
    }
}

/// What a download has received so far.
pub struct ModelDownloadView {
    /// Byte count and report throttling.
    pub progress: DownloadProgress,
    /// Every byte received, in order.
    pub received: Seq<u8>,
}

/// One model download: its progress and the hash of what it received.
pub struct ModelDownload {
    progress: DownloadProgress,
    hasher: ModelHasher,
}

impl View for ModelDownload {
    type V = ModelDownloadView;

    closed spec fn view(&self) -> ModelDownloadView {
        ModelDownloadView { progress: self.progress, received: hashed_bytes(self.hasher) }
    }
}

/// How a finished download ends.
#[derive(Debug, Clone, PartialEq, Eq)]
pub enum Completion {
    /// The bytes are accepted: move the partial file to the model's path.
    Install,
    /// The bytes are refused: remove the partial file and report the error.
    Discard(TranscribeError),
}

impl ModelDownload {
    /// The count is always the number of bytes received.
    #[verifier::type_invariant]
    spec fn counts_received(self) -> bool {
        self.progress.downloaded == hashed_bytes(self.hasher).len()
    }

    /// A download of `total` announced bytes (0 when unknown), nothing received.
    pub fn new(total: u64) -> (d: ModelDownload)
        ensures
            d@.progress == (DownloadProgress { total, downloaded: 0, last_report_ms: None }),
            d@.received == Seq::<u8>::empty(),
    {
        ModelDownload { progress: DownloadProgress::new(total), hasher: ModelHasher::new() }
    }

    /// Progress so far.
    pub fn progress(&self) -> (p: DownloadProgress)
        ensures
            p == self@.progress,
            p.downloaded == self@.received.len(),
    {
        proof {
            use_type_invariant(self);
        }
        self.progress
    }

    /// Takes in a received `chunk` at `now_ms`: it is hashed after the earlier
    /// bytes and counted, and a report is returned when one is due.
    pub fn on_chunk(&mut self, chunk: &[u8], now_ms: u64) -> (r: Option<ProgressEvent>)
        requires
            old(self)@.received.len() + chunk@.len() <= u64::MAX,
        ensures
            final(self)@.received == old(self)@.received + chunk@,
            (final(self)@.progress, r) == progress_step(old(self)@.progress, chunk@.len() as u64, now_ms),
            final(self)@.progress.downloaded == final(self)@.received.len(),
    {
        proof {
            use_type_invariant(&*self);
        }
        let mut taken = ModelDownload::new(0);
        std::mem::swap(&mut taken, self);
        proof {
            use_type_invariant(&taken);
        }
        let ModelDownload { mut progress, mut hasher } = taken;
        hasher.update(chunk);
        let r = progress.on_chunk(chunk.len() as u64, now_ms);
        *self = ModelDownload { progress, hasher };
        r
    }

    /// The report sent when the stream ends.
    pub fn final_report(&self) -> (r: ProgressEvent)
        ensures
            r.downloaded == self@.received.len(),
            r.total == (if self@.progress.total >= self@.received.len() {
                self@.progress.total as int
            } else {
                self@.received.len() as int
            }),
    {
        proof {
            use_type_invariant(self);
        }
        self.progress.final_report()
    }

    /// Ends the download: the received bytes are installed when `expected`
    /// is `None` or is the lowercase hex of their SHA-256, and otherwise
    /// discarded with an error naming both hashes.
    pub fn finish(self, expected: Option<&str>) -> (r: Completion)
        ensures
            expected is None ==> r == Completion::Install,
            expected matches Some(h) ==> (h@ == hex_lower_chars(sha256_of(self@.received)) ==> r
                == Completion::Install),
            expected matches Some(h) ==> (h@ != hex_lower_chars(sha256_of(self@.received)) ==> (
            r matches Completion::Discard(TranscribeError::HashMismatch { expected: e, actual: a })
                && e@ == h@ && a@ == hex_lower_chars(sha256_of(self@.received)))),
    {
        match expected {
            None => Completion::Install,
            Some(_) => {
                let ModelDownload { progress: _, hasher } = self;
                let digest = hasher.finalize();
                match check_model_digest(expected, digest.as_slice()) {
                    Ok(()) => Completion::Install,
                    Err(e) => Completion::Discard(e),
                }
            },
        }
    }
}

/// One file step of fetching a model, performed in order by the caller.
#[derive(Debug, Clone, Copy, PartialEq, Eq, Structural)]
pub enum FetchStep {
    /// The model file on disk is complete: use it, do nothing else.
    UseExisting,
    /// Remove the (partial) model file; a failure is ignored.
    RemoveModel,
    /// Remove a leftover partial download; a failure is ignored.
    RemovePartial,
    /// Download into the partial file, then `finish` the download.
    Download,
}

/// The file steps before downloading, given the size of the model file on
/// disk (`None` when there is none).
pub fn fetch_steps(file_len: Option<u64>) -> (r: Vec<FetchStep>)
    ensures
        model_file_action(file_len) == ExistingModel::Keep ==> r@ == seq![FetchStep::UseExisting],
        model_file_action(file_len) == ExistingModel::Replace ==> r@ == seq![
            FetchStep::RemoveModel,
            FetchStep::RemovePartial,
            FetchStep::Download,
        ],
        model_file_action(file_len) == ExistingModel::Absent ==> r@ == seq![
            FetchStep::RemovePartial,
            FetchStep::Download,
        ],
{
    let action = existing_model_action(file_len);
    let mut steps: Vec<FetchStep> = Vec::new();
    match action {
        ExistingModel::Keep => {
            steps.push(FetchStep::UseExisting);
        },
        ExistingModel::Replace => {
            steps.push(FetchStep::RemoveModel);
            steps.push(FetchStep::RemovePartial);
            steps.push(FetchStep::Download);
        },
        ExistingModel::Absent => {
            steps.push(FetchStep::RemovePartial);
            steps.push(FetchStep::Download);
        },
    }
    assert(steps@ =~= match action {
        ExistingModel::Keep => seq![FetchStep::UseExisting],
        ExistingModel::Replace => seq![FetchStep::RemoveModel, FetchStep::RemovePartial, FetchStep::Download],
        ExistingModel::Absent => seq![FetchStep::RemovePartial, FetchStep::Download],
    });
    steps
}

} // verus!

verus! {

/// A chunk is reported exactly when it arrives at least
/// `PROGRESS_INTERVAL_MS` after the last report, or when nothing has been
/// reported yet; either way every byte is counted.
pub proof fn law_report_when_interval_elapsed(p: DownloadProgress, len: u64, now_ms: u64)
    requires
        p.downloaded + len <= u64::MAX,
    ensures
        p.last_report_ms is None ==> progress_step(p, len, now_ms).1 == Some(
            ProgressEvent { downloaded: (p.downloaded + len) as u64, total: p.total },
        ),
        p.last_report_ms matches Some(t) ==> (now_ms >= t + 120 <==> progress_step(
            p,
            len,
            now_ms,
        ).1 is Some),
        p.last_report_ms matches Some(t) ==> (now_ms >= t + 120 ==> progress_step(
            p,
            len,
            now_ms,
        ).1 == Some(ProgressEvent { downloaded: (p.downloaded + len) as u64, total: p.total })),
        progress_step(p, len, now_ms).0.downloaded == p.downloaded + len,
        progress_step(p, len, now_ms).0.total == p.total,
{
}

} // verus!
