//! One download, as a machine that decides and a driver that acts.
//!
//! The task never touches the network or the disk. It names the next thing
//! to do (an action), the driver does it and reports how it went (an
//! event), and the task decides again. All the rules of a download live in
//! that decision: when bytes count, when progress is reported, when a
//! cancellation takes effect, and that the registry entry is removed however
//! the download ends.

use crate::naming::{download_file_name, file_name_of};
use crate::paths::{downloads_dir_under, downloads_path_from, home_dir, join_path, no_home_message, path_join};
use crate::registry::{cancelled_in, DownloadState};
use crate::text::{decimal, u64_to_decimal};
use crate::types::{
    opt_text, DownloadProgress, DownloadProgressView, DownloadStatus, DownloadedItem,
    DownloadedItemView, Fraction,
};
use vstd::prelude::*;
use vstd::string::StringExecFns;

verus! {

/// How long a request may take, in seconds: long enough for large media.
pub const REQUEST_TIMEOUT_SECS: u64 = 3600;

/// The least time between two progress reports, in milliseconds.
pub const REPORT_INTERVAL_MS: u64 = 500;

/// The header by which the client names itself.
pub const USER_AGENT: &'static str = "WatchTV/1.0";

/// The topic under which progress is published.
pub const PROGRESS_TOPIC: &'static str = "download-progress";

/// The time at which an event happened, read from two clocks.
#[derive(Debug, Clone, Copy, PartialEq, Eq, Structural)]
pub struct Clock {
    /// Milliseconds on a clock that never runs backwards.
    pub monotonic_ms: u64,
    /// Seconds since the Unix epoch.
    pub unix_secs: u64,
}

/// Why a download failed.
#[derive(Debug, Clone, PartialEq, Eq)]
pub enum DownloadError {
    /// The server answered with a status that is not a success.
    Fetch { status: u16 },
    /// The transport failed; the text names the cause.
    Network(String),
    /// A directory or file could not be made or written; the text names the
    /// cause.
    FileSystem(String),
    /// The download was cancelled on request.
    Cancelled,
}

/// `DownloadError` as a mathematical value.
pub enum DownloadErrorView {
    Fetch { status: u16 },
    Network(Seq<char>),
    FileSystem(Seq<char>),
    Cancelled,
}

impl DownloadErrorView {
    /// The error in words.
    pub open spec fn message(self) -> Seq<char> {
        match self {
            DownloadErrorView::Fetch { status } => "HTTP error: "@ + decimal(status as nat),
            DownloadErrorView::Network(text) => text,
            DownloadErrorView::FileSystem(text) => text,
            DownloadErrorView::Cancelled => "Download cancelled"@,
        }
    }

    /// The status under which the error is reported to observers.
    pub open spec fn status(self) -> DownloadStatus {
        match self {
            DownloadErrorView::Cancelled => DownloadStatus::Cancelled,
            _ => DownloadStatus::Error,
        }
    }
}

impl View for DownloadError {
    type V = DownloadErrorView;

    open spec fn view(&self) -> DownloadErrorView {
        match self {
            DownloadError::Fetch { status } => DownloadErrorView::Fetch { status: *status },
            DownloadError::Network(text) => DownloadErrorView::Network(text@),
            DownloadError::FileSystem(text) => DownloadErrorView::FileSystem(text@),
            DownloadError::Cancelled => DownloadErrorView::Cancelled,
        }
    }
}

impl DownloadError {
    /// The error in words.
    pub fn message(&self) -> (text: String)
        ensures
            text@ == self@.message(),
    {
        match self {
            DownloadError::Fetch { status } => {
                let number = u64_to_decimal(*status as u64);
                "HTTP error: ".to_owned().concat(number.as_str())
            },
            DownloadError::Network(text) => text.clone(),
            DownloadError::FileSystem(text) => text.clone(),
            DownloadError::Cancelled => "Download cancelled".to_owned(),
        }
    }

    /// The status under which the error is reported to observers: a
    /// cancellation is no failure and has a status of its own.
    pub fn status(&self) -> (status: DownloadStatus)
        ensures
            status == self@.status(),
    {
        match self {
            DownloadError::Cancelled => DownloadStatus::Cancelled,
            _ => DownloadStatus::Error,
        }
    }
}

/// The share of the download that is done. It is zero while the total is
/// unknown, and one from the moment the count reaches the total.
pub open spec fn progress_of(downloaded: u64, total: Option<u64>) -> Fraction {
    match total {
        Some(t) => if downloaded < t {
            Fraction { part: downloaded, whole: t }
        } else {
            Fraction { part: 1, whole: 1 }
        },
        None => Fraction { part: 0, whole: 1 },
    }
}

/// Bytes per second over the time since the download started, rounded down;
/// zero when no time has passed.
pub open spec fn speed_of(downloaded: u64, elapsed_ms: u64) -> u64 {
    if elapsed_ms == 0 {
        0
    } else if downloaded * 1000 / (elapsed_ms as int) > u64::MAX {
        u64::MAX
    } else {
        (downloaded * 1000 / (elapsed_ms as int)) as u64
    }
}

/// The time from `earlier` to `later`; zero if `later` is not later.
pub open spec fn elapsed_between(earlier: u64, later: u64) -> u64 {
    if later >= earlier {
        (later - earlier) as u64
    } else {
        0
    }
}

/// Whether a progress report is due: whether the report interval has passed
/// since the last one.
pub open spec fn report_is_due(last_report: u64, now: u64) -> bool {
    elapsed_between(last_report, now) >= REPORT_INTERVAL_MS
}

/// Whether an HTTP status is a success.
pub open spec fn is_success(status: u16) -> bool {
    200 <= status < 300
}

/// The sum of the lengths of a sequence of chunks.
pub open spec fn total_len(chunks: Seq<u64>) -> nat
    decreases chunks.len(),
{
    if chunks.len() == 0 {
        0
    } else {
        total_len(chunks.drop_last()) + chunks.last() as nat
    }
}

/// Computes the share of the download that is done.
pub fn progress_fraction(downloaded: u64, total: Option<u64>) -> (fraction: Fraction)
    ensures
        fraction == progress_of(downloaded, total),
        fraction.wf(),
{
    match total {
        Some(t) => if downloaded < t {
            Fraction { part: downloaded, whole: t }
        } else {
            Fraction { part: 1, whole: 1 }
        },
        None => Fraction { part: 0, whole: 1 },
    }
}

/// Computes the throughput in bytes per second.
pub fn throughput(downloaded: u64, elapsed_ms: u64) -> (speed: u64)
    ensures
        speed == speed_of(downloaded, elapsed_ms),
{
    if elapsed_ms == 0 {
        0
    } else {
        let scaled: u128 = downloaded as u128 * 1000;
        let rate: u128 = scaled / (elapsed_ms as u128);
        if rate > u64::MAX as u128 {
            u64::MAX
        } else {
            rate as u64
        }
    }
}

/// What the driver reports after it has carried out an action.
#[derive(Debug, Clone, PartialEq, Eq)]
pub enum DownloadEvent {
    /// The action succeeded and there is nothing more to say.
    Done,
    /// The action failed; the text names the cause.
    Failed(String),
    /// The server answered the request.
    Response { status: u16, content_length: Option<u64> },
    /// A chunk of this many bytes arrived.
    Chunk(u64),
    /// The stream ended.
    EndOfStream,
}

/// `DownloadEvent` as a mathematical value.
pub enum DownloadEventView {
    Done,
    Failed(Seq<char>),
    Response { status: u16, content_length: Option<u64> },
    Chunk(u64),
    EndOfStream,
}

impl View for DownloadEvent {
    type V = DownloadEventView;

    open spec fn view(&self) -> DownloadEventView {
        match self {
            DownloadEvent::Done => DownloadEventView::Done,
            DownloadEvent::Failed(cause) => DownloadEventView::Failed(cause@),
            DownloadEvent::Response { status, content_length } => DownloadEventView::Response {
                status: *status,
                content_length: *content_length,
            },
            DownloadEvent::Chunk(len) => DownloadEventView::Chunk(*len),
            DownloadEvent::EndOfStream => DownloadEventView::EndOfStream,
        }
    }
}

/// The request that opens a download.
#[derive(Debug, Clone, PartialEq, Eq)]
pub struct HttpRequest {
    pub url: String,
    pub timeout_secs: u64,
    pub user_agent: String,
}

/// `HttpRequest` as a mathematical value.
pub struct HttpRequestView {
    pub url: Seq<char>,
    pub timeout_secs: u64,
    pub user_agent: Seq<char>,
}

impl View for HttpRequest {
    type V = HttpRequestView;

    open spec fn view(&self) -> HttpRequestView {
        HttpRequestView {
            url: self.url@,
            timeout_secs: self.timeout_secs,
            user_agent: self.user_agent@,
        }
    }
}

/// What the driver is to do next.
#[derive(Debug, PartialEq, Eq)]
pub enum DownloadAction {
    /// Create this directory and its parents; answer `Done` or `Failed`.
    PrepareDir(String),
    /// Send this request; answer `Response` or `Failed`.
    Request(HttpRequest),
    /// Create this file, replacing one that exists; answer `Done` or `Failed`.
    CreateFile(String),
    /// Publish the report if there is one, then wait for the next chunk;
    /// answer `Chunk`, `EndOfStream` or `Failed`.
    AwaitChunk(Option<DownloadProgress>),
    /// Write the chunk that just arrived; answer `Done` or `Failed`.
    WriteChunk,
    /// Flush the file; answer `Done` or `Failed`.
    Flush,
    /// Close this file and delete it; answer `Done` or `Failed`.
    RemoveFile(String),
    /// Publish the last report and hand the outcome to the caller. The
    /// download is over.
    Finish { report: DownloadProgress, outcome: Result<DownloadedItem, DownloadError> },
    /// The event does not answer what the task waits for. Nothing changed.
    Rejected(DownloadEvent),
}

/// `DownloadAction` as a mathematical value.
pub enum DownloadActionView {
    PrepareDir(Seq<char>),
    Request(HttpRequestView),
    CreateFile(Seq<char>),
    AwaitChunk(Option<DownloadProgressView>),
    WriteChunk,
    Flush,
    RemoveFile(Seq<char>),
    Finish { report: DownloadProgressView, outcome: Result<DownloadedItemView, DownloadErrorView> },
    Rejected(DownloadEventView),
}

impl View for DownloadAction {
    type V = DownloadActionView;

    open spec fn view(&self) -> DownloadActionView {
        match self {
            DownloadAction::PrepareDir(dir) => DownloadActionView::PrepareDir(dir@),
            DownloadAction::Request(request) => DownloadActionView::Request(request@),
            DownloadAction::CreateFile(path) => DownloadActionView::CreateFile(path@),
            DownloadAction::AwaitChunk(report) => DownloadActionView::AwaitChunk(
                match report {
                    Some(r) => Some(r@),
                    None => None,
                },
            ),
            DownloadAction::WriteChunk => DownloadActionView::WriteChunk,
            DownloadAction::Flush => DownloadActionView::Flush,
            DownloadAction::RemoveFile(path) => DownloadActionView::RemoveFile(path@),
            DownloadAction::Finish { report, outcome } => DownloadActionView::Finish {
                report: report@,
                outcome: match outcome {
                    Ok(item) => Ok(item@),
                    Err(error) => Err(error@),
                },
            },
            DownloadAction::Rejected(event) => DownloadActionView::Rejected(event@),
        }
    }
}

/// What a task waits for.
#[derive(Debug, Clone, Copy, PartialEq, Eq, Structural)]
pub enum DownloadStage {
    /// For the downloads directory to exist.
    PreparingDir,
    /// For the server's answer.
    Requesting,
    /// For the destination file to be created.
    CreatingFile,
    /// For the next chunk, or the end of the stream.
    AwaitingChunk,
    /// For a chunk of this many bytes to be written.
    Writing(u64),
    /// For the file to be flushed.
    Flushing,
    /// For the partial file of a cancelled download to be deleted.
    RemovingPartial,
    /// For nothing: the download is over.
    Finished,
}

/// One download: what it fetches, where it writes, and how far it is.
pub struct DownloadTask {
    id: String,
    url: String,
    name: String,
    thumbnail: Option<String>,
    path: String,
    stage: DownloadStage,
    counted: Counted,
    total: Option<u64>,
    started_at: u64,
    last_report: u64,
}

/// The bytes counted so far, with the chunks that they came in.
struct Counted {
    bytes: u64,
    chunks: Ghost<Seq<u64>>,
}

/// A download as a mathematical value.
pub struct DownloadTaskView {
    /// The caller's id for the download.
    pub id: Seq<char>,
    /// Where the bytes come from.
    pub url: Seq<char>,
    /// The display name.
    pub name: Seq<char>,
    /// A picture for the download, if the caller gave one.
    pub thumbnail: Option<Seq<char>>,
    /// The destination file.
    pub path: Seq<char>,
    /// What the task waits for.
    pub stage: DownloadStage,
    /// The bytes counted so far.
    pub downloaded: u64,
    /// The size that the server announced, if it announced one.
    pub total: Option<u64>,
    /// When the destination file was created.
    pub started_at: u64,
    /// When progress was last reported.
    pub last_report: u64,
    /// The lengths of the chunks written to the file, in order.
    pub written: Seq<u64>,
}

impl DownloadTaskView {
    /// The count is the length of what was written, and a chunk that is
    /// being written fits into the count.
    pub open spec fn wf(self) -> bool {
        &&& self.downloaded == total_len(self.written)
        &&& self.stage matches DownloadStage::Writing(len) ==> self.downloaded + len <= u64::MAX
    }

    /// A report on the download as it stands.
    pub open spec fn report(self, status: DownloadStatus, speed: Option<u64>) -> DownloadProgressView {
        DownloadProgressView {
            id: self.id,
            progress: progress_of(self.downloaded, self.total),
            status,
            downloaded_bytes: self.downloaded,
            total_bytes: self.total,
            speed,
        }
    }

    /// The last report of a download that completed.
    pub open spec fn completion_report(self) -> DownloadProgressView {
        DownloadProgressView {
            id: self.id,
            progress: Fraction { part: 1, whole: 1 },
            status: DownloadStatus::Completed,
            downloaded_bytes: self.downloaded,
            total_bytes: Some(self.downloaded),
            speed: None,
        }
    }

    /// What a download that completed at `unix_secs` leaves behind.
    pub open spec fn item(self, unix_secs: u64) -> DownloadedItemView {
        DownloadedItemView {
            id: self.id,
            name: self.name,
            local_path: self.path,
            original_url: self.url,
            thumbnail: self.thumbnail,
            downloaded_at: unix_secs,
            size: Some(self.downloaded),
        }
    }

    /// The request that opens the download.
    pub open spec fn request(self) -> HttpRequestView {
        HttpRequestView {
            url: self.url,
            timeout_secs: REQUEST_TIMEOUT_SECS,
            user_agent: USER_AGENT@,
        }
    }
}

/// The outcome of one decision: the task and the registry after it, and the
/// action that the driver is to carry out.
pub struct DownloadStep {
    pub task: DownloadTaskView,
    pub registry: Map<Seq<char>, bool>,
    pub action: DownloadActionView,
}

/// The task moves on to `stage` and asks for `action`; the registry stays.
pub open spec fn proceed(
    task: DownloadTaskView,
    registry: Map<Seq<char>, bool>,
    stage: DownloadStage,
    action: DownloadActionView,
) -> DownloadStep {
    DownloadStep { task: DownloadTaskView { stage, ..task }, registry, action }
}

/// The download ends with `error`: the registry entry goes, and the last
/// report carries the error's status.
pub open spec fn fail(
    task: DownloadTaskView,
    registry: Map<Seq<char>, bool>,
    error: DownloadErrorView,
) -> DownloadStep {
    DownloadStep {
        task: DownloadTaskView { stage: DownloadStage::Finished, ..task },
        registry: registry.remove(task.id),
        action: DownloadActionView::Finish {
            report: task.report(error.status(), None),
            outcome: Err(error),
        },
    }
}

/// The download ends well at `now`: the registry entry goes, the last report
/// says `completed` with all of the bytes, and the outcome is the item.
pub open spec fn complete(
    task: DownloadTaskView,
    registry: Map<Seq<char>, bool>,
    now: Clock,
) -> DownloadStep {
    DownloadStep {
        task: DownloadTaskView { stage: DownloadStage::Finished, ..task },
        registry: registry.remove(task.id),
        action: DownloadActionView::Finish {
            report: task.completion_report(),
            outcome: Ok(task.item(now.unix_secs)),
        },
    }
}

/// The event does not answer what the task waits for: nothing changes.
pub open spec fn reject(
    task: DownloadTaskView,
    registry: Map<Seq<char>, bool>,
    event: DownloadEventView,
) -> DownloadStep {
    DownloadStep { task, registry, action: DownloadActionView::Rejected(event) }
}

/// A chunk of `len` bytes was written at `now`: it counts, and a progress
/// report goes out with the next wait if the report interval has passed.
pub open spec fn count_chunk(
    task: DownloadTaskView,
    registry: Map<Seq<char>, bool>,
    len: u64,
    now: Clock,
) -> DownloadStep {
    let counted = DownloadTaskView {
        stage: DownloadStage::AwaitingChunk,
        downloaded: (task.downloaded + len) as u64,
        written: task.written.push(len),
        ..task
    };
    if report_is_due(task.last_report, now.monotonic_ms) {
        DownloadStep {
            task: DownloadTaskView { last_report: now.monotonic_ms, ..counted },
            registry,
            action: DownloadActionView::AwaitChunk(
                Some(
                    counted.report(
                        DownloadStatus::Downloading,
                        Some(
                            speed_of(
                                counted.downloaded,
                                elapsed_between(task.started_at, now.monotonic_ms),
                            ),
                        ),
                    ),
                ),
            ),
        }
    } else {
        DownloadStep { task: counted, registry, action: DownloadActionView::AwaitChunk(None) }
    }
}

/// The task's decision: what becomes of the task and the registry, and what
/// the driver is to do, when `event` arrives at `now`.
pub open spec fn next(
    task: DownloadTaskView,
    registry: Map<Seq<char>, bool>,
    event: DownloadEventView,
    now: Clock,
) -> DownloadStep {
    match (task.stage, event) {
        (DownloadStage::PreparingDir, DownloadEventView::Done) => proceed(
            task,
            registry,
            DownloadStage::Requesting,
            DownloadActionView::Request(task.request()),
        ),
        (DownloadStage::PreparingDir, DownloadEventView::Failed(cause)) => fail(
            task,
            registry,
            DownloadErrorView::FileSystem("Failed to create downloads directory: "@ + cause),
        ),
        (DownloadStage::Requesting, DownloadEventView::Response { status, content_length }) => {
            if is_success(status) {
                proceed(
                    DownloadTaskView { total: content_length, ..task },
                    registry,
                    DownloadStage::CreatingFile,
                    DownloadActionView::CreateFile(task.path),
                )
            } else {
                fail(task, registry, DownloadErrorView::Fetch { status })
            }
        },
        (DownloadStage::Requesting, DownloadEventView::Failed(cause)) => fail(
            task,
            registry,
            DownloadErrorView::Network("Failed to start download: "@ + cause),
        ),
        (DownloadStage::CreatingFile, DownloadEventView::Done) => proceed(
            DownloadTaskView {
                started_at: now.monotonic_ms,
                last_report: now.monotonic_ms,
                ..task
            },
            registry,
            DownloadStage::AwaitingChunk,
            DownloadActionView::AwaitChunk(None),
        ),
        (DownloadStage::CreatingFile, DownloadEventView::Failed(cause)) => fail(
            task,
            registry,
            DownloadErrorView::FileSystem("Failed to create file: "@ + cause),
        ),
        (DownloadStage::AwaitingChunk, DownloadEventView::Chunk(len)) => {
            if cancelled_in(registry, task.id) {
                proceed(
                    task,
                    registry,
                    DownloadStage::RemovingPartial,
                    DownloadActionView::RemoveFile(task.path),
                )
            } else if task.downloaded + len <= u64::MAX {
                proceed(task, registry, DownloadStage::Writing(len), DownloadActionView::WriteChunk)
            } else {
                reject(task, registry, event)
            }
        },
        (DownloadStage::AwaitingChunk, DownloadEventView::Failed(cause)) => {
            if cancelled_in(registry, task.id) {
                proceed(
                    task,
                    registry,
                    DownloadStage::RemovingPartial,
                    DownloadActionView::RemoveFile(task.path),
                )
            } else {
                fail(task, registry, DownloadErrorView::Network("Download error: "@ + cause))
            }
        },
        (DownloadStage::AwaitingChunk, DownloadEventView::EndOfStream) => proceed(
            task,
            registry,
            DownloadStage::Flushing,
            DownloadActionView::Flush,
        ),
        (DownloadStage::Writing(len), DownloadEventView::Done) => count_chunk(
            task,
            registry,
            len,
            now,
        ),
        (DownloadStage::Writing(_), DownloadEventView::Failed(cause)) => fail(
            task,
            registry,
            DownloadErrorView::FileSystem("Write error: "@ + cause),
        ),
        (DownloadStage::Flushing, DownloadEventView::Done) => complete(task, registry, now),
        (DownloadStage::Flushing, DownloadEventView::Failed(cause)) => fail(
            task,
            registry,
            DownloadErrorView::FileSystem("Flush error: "@ + cause),
        ),
        (DownloadStage::RemovingPartial, DownloadEventView::Done) => fail(
            task,
            registry,
            DownloadErrorView::Cancelled,
        ),
        (DownloadStage::RemovingPartial, DownloadEventView::Failed(_)) => fail(
            task,
            registry,
            DownloadErrorView::Cancelled,
        ),
        _ => reject(task, registry, event),
    }
}

/// The first decision of a download: the id is registered as active and not
/// cancelled, the destination is the file named after `name` and `url` in
/// the downloads directory below `home`, and the driver is to make sure
/// that directory exists. Without a home directory the download fails at
/// once and its registry entry is gone again.
pub open spec fn first_step(
    registry: Map<Seq<char>, bool>,
    id: Seq<char>,
    url: Seq<char>,
    name: Seq<char>,
    thumbnail: Option<Seq<char>>,
    home: Option<Seq<char>>,
) -> DownloadStep {
    let fresh = DownloadTaskView {
        id,
        url,
        name,
        thumbnail,
        path: Seq::empty(),
        stage: DownloadStage::PreparingDir,
        downloaded: 0,
        total: None,
        started_at: 0,
        last_report: 0,
        written: Seq::empty(),
    };
    match home {
        Some(h) => DownloadStep {
            task: DownloadTaskView {
                path: path_join(downloads_dir_under(h), file_name_of(name, url)),
                ..fresh
            },
            registry: registry.insert(id, false),
            action: DownloadActionView::PrepareDir(downloads_dir_under(h)),
        },
        None => fail(fresh, registry.insert(id, false), DownloadErrorView::FileSystem(no_home_message())),
    }
}

impl View for DownloadTask {
    type V = DownloadTaskView;

    closed spec fn view(&self) -> DownloadTaskView {
        DownloadTaskView {
            id: self.id@,
            url: self.url@,
            name: self.name@,
            thumbnail: opt_text(self.thumbnail),
            path: self.path@,
            stage: self.stage,
            downloaded: self.counted.bytes,
            total: self.total,
            started_at: self.started_at,
            last_report: self.last_report,
            written: self.counted.chunks@,
        }
    }
}

impl DownloadTask {
    #[verifier::type_invariant]
    spec fn well_formed(self) -> bool {
        self@.wf()
    }

    /// Begins a download for a home directory that was looked up already.
    /// Returns the task and its first action.
    pub fn start(
        registry: &mut DownloadState,
        id: String,
        url: String,
        name: String,
        thumbnail: Option<String>,
        home: Option<String>,
    ) -> (started: (DownloadTask, DownloadAction))
        ensures
            ({
                let step = first_step(
                    old(registry)@,
                    id@,
                    url@,
                    name@,
                    opt_text(thumbnail),
                    opt_text(home),
                );
                &&& started.0@ == step.task
                &&& final(registry)@ == step.registry
                &&& started.1@ == step.action
            }),
            started.0@.wf(),
    {
        registry.begin(id.as_str());
        let file_name = download_file_name(name.as_str(), url.as_str());
        let mut task = DownloadTask {
            id,
            url,
            name,
            thumbnail,
            path: String::new(),
            stage: DownloadStage::PreparingDir,
            counted: Counted { bytes: 0, chunks: Ghost(Seq::empty()) },
            total: None,
            started_at: 0,
            last_report: 0,
        };
        match downloads_path_from(home) {
            Ok(dir) => {
                task.path = join_path(dir.as_str(), file_name.as_str());
                (task, DownloadAction::PrepareDir(dir))
            },
            Err(message) => {
                let action = task.fail(registry, DownloadError::FileSystem(message));
                (task, action)
            },
        }
    }

    /// The caller's id for the download.
    pub fn id(&self) -> (id: &str)
        ensures
            id@ == self@.id,
    {
        self.id.as_str()
    }

    /// The destination file.
    pub fn path(&self) -> (path: &str)
        ensures
            path@ == self@.path,
    {
        self.path.as_str()
    }

    /// What the task waits for.
    pub fn stage(&self) -> (stage: DownloadStage)
        ensures
            stage == self@.stage,
    {
        self.stage
    }

    /// The bytes counted so far: the length of what was written.
    pub fn downloaded_bytes(&self) -> (bytes: u64)
        ensures
            bytes == self@.downloaded,
            bytes == total_len(self@.written),
    {
        proof {
            use_type_invariant(self);
        }
        self.counted.bytes
    }

    /// The size that the server announced, if it announced one.
    pub fn total_bytes(&self) -> (total: Option<u64>)
        ensures
            total == self@.total,
    {
        self.total
    }

    /// Whether the download is over.
    pub fn is_finished(&self) -> (finished: bool)
        ensures
            finished == (self@.stage == DownloadStage::Finished),
    {
        match self.stage {
            DownloadStage::Finished => true,
            _ => false,
        }
    }

    fn report(&self, status: DownloadStatus, speed: Option<u64>) -> (report: DownloadProgress)
        ensures
            report@ == self@.report(status, speed),
    {
        DownloadProgress {
            id: self.id.clone(),
            progress: progress_fraction(self.counted.bytes, self.total),
            status,
            downloaded_bytes: self.counted.bytes,
            total_bytes: self.total,
            speed,
        }
    }

    fn fail(&mut self, registry: &mut DownloadState, error: DownloadError) -> (action:
        DownloadAction)
        ensures
            ({
                let step = fail(old(self)@, old(registry)@, error@);
                &&& final(self)@ == step.task
                &&& final(registry)@ == step.registry
                &&& action@ == step.action
            }),
    {
        proof {
            use_type_invariant(&*self);
        }
        registry.end(self.id.as_str());
        let report = self.report(error.status(), None);
        self.stage = DownloadStage::Finished;
        DownloadAction::Finish { report, outcome: Err(error) }
    }

    fn complete(&mut self, registry: &mut DownloadState, now: Clock) -> (action: DownloadAction)
        ensures
            ({
                let step = complete(old(self)@, old(registry)@, now);
                &&& final(self)@ == step.task
                &&& final(registry)@ == step.registry
                &&& action@ == step.action
            }),
    {
        proof {
            use_type_invariant(&*self);
        }
        registry.end(self.id.as_str());
        let report = DownloadProgress {
            id: self.id.clone(),
            progress: Fraction { part: 1, whole: 1 },
            status: DownloadStatus::Completed,
            downloaded_bytes: self.counted.bytes,
            total_bytes: Some(self.counted.bytes),
            speed: None,
        };
        let item = DownloadedItem {
            id: self.id.clone(),
            name: self.name.clone(),
            local_path: self.path.clone(),
            original_url: self.url.clone(),
            thumbnail: self.thumbnail.clone(),
            downloaded_at: now.unix_secs,
            size: Some(self.counted.bytes),
        };
        self.stage = DownloadStage::Finished;
        DownloadAction::Finish { report, outcome: Ok(item) }
    }

    fn count_chunk(&mut self, len: u64, now: Clock) -> (action: DownloadAction)
        requires
            old(self)@.stage == DownloadStage::Writing(len),
        ensures
            final(self)@ == count_chunk(old(self)@, Map::empty(), len, now).task,
            action@ == count_chunk(old(self)@, Map::empty(), len, now).action,
    {
        proof {
            use_type_invariant(&*self);
        }
        let ghost chunks = self.counted.chunks@.push(len);
        assert(chunks.drop_last() =~= self.counted.chunks@);
        self.stage = DownloadStage::AwaitingChunk;
        self.counted = Counted { bytes: self.counted.bytes + len, chunks: Ghost(chunks) };
        let since_report = if now.monotonic_ms >= self.last_report {
            now.monotonic_ms - self.last_report
        } else {
            0
        };
        if since_report >= REPORT_INTERVAL_MS {
            let elapsed = if now.monotonic_ms >= self.started_at {
                now.monotonic_ms - self.started_at
            } else {
                0
            };
            let speed = throughput(self.counted.bytes, elapsed);
            let report = self.report(DownloadStatus::Downloading, Some(speed));
            self.last_report = now.monotonic_ms;
            DownloadAction::AwaitChunk(Some(report))
        } else {
            DownloadAction::AwaitChunk(None)
        }
    }

    fn abort(&mut self) -> (action: DownloadAction)
        requires
            old(self)@.stage == DownloadStage::AwaitingChunk,
        ensures
            final(self)@ == (DownloadTaskView {
                stage: DownloadStage::RemovingPartial,
                ..old(self)@
            }),
            action@ == DownloadActionView::RemoveFile(old(self)@.path),
    {
        proof {
            use_type_invariant(&*self);
        }
        self.stage = DownloadStage::RemovingPartial;
        DownloadAction::RemoveFile(self.path.clone())
    }

    /// Decides what to do when `event` arrives at `now`. The task and the
    /// registry change, and the action comes out, exactly as `next` says.
    /// In particular the download's registry entry is removed with every
    /// `Finish`, and with nothing else.
    pub fn step(&mut self, registry: &mut DownloadState, event: DownloadEvent, now: Clock) -> (action:
        DownloadAction)
        ensures
            ({
                let step = next(old(self)@, old(registry)@, event@, now);
                &&& final(self)@ == step.task
                &&& final(registry)@ == step.registry
                &&& action@ == step.action
            }),
            final(self)@.wf(),
    {
        proof {
            use_type_invariant(&*self);
        }
        let action = match self.stage {
            DownloadStage::PreparingDir => match event {
                DownloadEvent::Done => {
                    self.stage = DownloadStage::Requesting;
                    DownloadAction::Request(
                        HttpRequest {
                            url: self.url.clone(),
                            timeout_secs: REQUEST_TIMEOUT_SECS,
                            user_agent: USER_AGENT.to_owned(),
                        },
                    )
                },
                DownloadEvent::Failed(cause) => {
                    let text = "Failed to create downloads directory: ".to_owned().concat(
                        cause.as_str(),
                    );
                    self.fail(registry, DownloadError::FileSystem(text))
                },
                other => DownloadAction::Rejected(other),
            },
            DownloadStage::Requesting => match event {
                DownloadEvent::Response { status, content_length } => {
                    if 200 <= status && status < 300 {
                        self.total = content_length;
                        self.stage = DownloadStage::CreatingFile;
                        DownloadAction::CreateFile(self.path.clone())
                    } else {
                        self.fail(registry, DownloadError::Fetch { status })
                    }
                },
                DownloadEvent::Failed(cause) => {
                    let text = "Failed to start download: ".to_owned().concat(cause.as_str());
                    self.fail(registry, DownloadError::Network(text))
                },
                other => DownloadAction::Rejected(other),
            },
            DownloadStage::CreatingFile => match event {
                DownloadEvent::Done => {
                    self.started_at = now.monotonic_ms;
                    self.last_report = now.monotonic_ms;
                    self.stage = DownloadStage::AwaitingChunk;
                    DownloadAction::AwaitChunk(None)
                },
                DownloadEvent::Failed(cause) => {
                    let text = "Failed to create file: ".to_owned().concat(cause.as_str());
                    self.fail(registry, DownloadError::FileSystem(text))
                },
                other => DownloadAction::Rejected(other),
            },
            DownloadStage::AwaitingChunk => match event {
                DownloadEvent::Chunk(len) => {
                    if registry.is_cancelled(self.id.as_str()) {
                        self.abort()
                    } else if len <= u64::MAX - self.counted.bytes {
                        self.stage = DownloadStage::Writing(len);
                        DownloadAction::WriteChunk
                    } else {
                        DownloadAction::Rejected(DownloadEvent::Chunk(len))
                    }
                },
                DownloadEvent::Failed(cause) => {
                    if registry.is_cancelled(self.id.as_str()) {
                        self.abort()
                    } else {
                        let text = "Download error: ".to_owned().concat(cause.as_str());
                        self.fail(registry, DownloadError::Network(text))
                    }
                },
                DownloadEvent::EndOfStream => {
                    self.stage = DownloadStage::Flushing;
                    DownloadAction::Flush
                },
                other => DownloadAction::Rejected(other),
            },
            DownloadStage::Writing(len) => match event {
                DownloadEvent::Done => self.count_chunk(len, now),
                DownloadEvent::Failed(cause) => {
                    let text = "Write error: ".to_owned().concat(cause.as_str());
                    self.fail(registry, DownloadError::FileSystem(text))
                },
                other => DownloadAction::Rejected(other),
            },
            DownloadStage::Flushing => match event {
                DownloadEvent::Done => self.complete(registry, now),
                DownloadEvent::Failed(cause) => {
                    let text = "Flush error: ".to_owned().concat(cause.as_str());
                    self.fail(registry, DownloadError::FileSystem(text))
                },
                other => DownloadAction::Rejected(other),
            },
            DownloadStage::RemovingPartial => match event {
                DownloadEvent::Done => self.fail(registry, DownloadError::Cancelled),
                DownloadEvent::Failed(_) => self.fail(registry, DownloadError::Cancelled),
                other => DownloadAction::Rejected(other),
            },
            DownloadStage::Finished => DownloadAction::Rejected(event),
        };
        proof {
            use_type_invariant(&*self);
        }
        action
    }
}

/// Begins the download of `url` under `id`: looks up the home directory of
/// the current user and starts the task below it. Whatever the lookup
/// gives, the task, the registry and the first action are those of
/// `first_step` for it.
pub fn download_video(
    state: &mut DownloadState,
    id: String,
    url: String,
    name: String,
    thumbnail: Option<String>,
) -> (started: (DownloadTask, DownloadAction))
    ensures
        exists|home: Option<Seq<char>>|
            {
                let step = #[trigger] first_step(
                    old(state)@,
                    id@,
                    url@,
                    name@,
                    opt_text(thumbnail),
                    home,
                );
                &&& started.0@ == step.task
                &&& final(state)@ == step.registry
                &&& started.1@ == step.action
            },
        started.0@.wf(),
{
    let home = home_dir();
    let ghost known = opt_text(home);
    let started = DownloadTask::start(state, id, url, name, thumbnail, home);
    proof {
        let step = first_step(old(state)@, id@, url@, name@, opt_text(thumbnail), known);
        assert(started.0@ == step.task);
    }
    started
}

/// The report that an action carries, if it carries one.
pub open spec fn reported(action: DownloadActionView) -> Option<DownloadProgressView> {
    match action {
        DownloadActionView::AwaitChunk(report) => report,
        DownloadActionView::Finish { report, .. } => Some(report),
        _ => None,
    }
}

/// Every decision keeps the task well formed.
pub proof fn lemma_next_preserves_wf(
    task: DownloadTaskView,
    registry: Map<Seq<char>, bool>,
    event: DownloadEventView,
    now: Clock,
)
    requires
        task.wf(),
    ensures
        next(task, registry, event, now).task.wf(),
{
    if let DownloadStage::Writing(len) = task.stage {
        assert(task.written.push(len).drop_last() =~= task.written);
    }
}

/// A download begins well formed, with nothing counted.
pub proof fn lemma_first_step_is_wf(
    registry: Map<Seq<char>, bool>,
    id: Seq<char>,
    url: Seq<char>,
    name: Seq<char>,
    thumbnail: Option<Seq<char>>,
    home: Option<Seq<char>>,
)
    ensures
        first_step(registry, id, url, name, thumbnail, home).task.wf(),
        first_step(registry, id, url, name, thumbnail, home).task.downloaded == 0,
{
}

/// Cleanup is unconditional: a download's registry entry is gone exactly
/// when the download is over. Every `Finish` removes it and ends the task,
/// whether the download completed, failed or was cancelled; any other
/// action leaves the registry as it was.
pub proof fn lemma_finish_removes_entry(
    task: DownloadTaskView,
    registry: Map<Seq<char>, bool>,
    event: DownloadEventView,
    now: Clock,
)
    ensures
        ({
            let step = next(task, registry, event, now);
            if step.action is Finish {
                &&& step.registry == registry.remove(task.id)
                &&& !step.registry.contains_key(task.id)
                &&& step.task.stage == DownloadStage::Finished
            } else {
                step.registry == registry
            }
        }),
{
}

/// A cancellation that was requested before the first chunk takes effect at
/// the first chunk, for every id and whatever the registry held before:
/// the chunk is not written and nothing is counted, the driver is told to
/// delete the destination file, and once it has answered, whether the
/// deletion went well or not, the download ends as cancelled with its
/// registry entry gone.
pub proof fn lemma_cancel_before_first_chunk(
    task: DownloadTaskView,
    registry: Map<Seq<char>, bool>,
    len: u64,
    now: Clock,
    answer: DownloadEventView,
    later: Clock,
)
    requires
        task.stage == DownloadStage::AwaitingChunk,
        answer is Done || answer is Failed,
    ensures
        ({
            let asked = crate::registry::after_cancel(registry.insert(task.id, false), task.id);
            let stopped = next(task, asked, DownloadEventView::Chunk(len), now);
            let ended = next(stopped.task, stopped.registry, answer, later);
            &&& stopped.action == DownloadActionView::RemoveFile(task.path)
            &&& stopped.task.written == task.written
            &&& stopped.task.downloaded == task.downloaded
            &&& ended.action matches DownloadActionView::Finish { report, outcome }
            &&& report.status == DownloadStatus::Cancelled
            &&& outcome == Err::<DownloadedItemView, DownloadErrorView>(DownloadErrorView::Cancelled)
            &&& ended.task.stage == DownloadStage::Finished
            &&& ended.task.written == task.written
            &&& !ended.registry.contains_key(task.id)
        }),
{
}

/// A download that completes reports, as its last word, exactly the bytes
/// that were written to the file: the count in the report, the announced
/// total and the size of the item are all the sum of the written chunks,
/// the progress is exactly one, and the status is `completed`.
pub proof fn lemma_completion_reports_file_length(
    task: DownloadTaskView,
    registry: Map<Seq<char>, bool>,
    event: DownloadEventView,
    now: Clock,
)
    requires
        task.wf(),
    ensures
        ({
            let step = next(task, registry, event, now);
            step.action matches DownloadActionView::Finish { report, outcome: Ok(item) } ==> {
                &&& report.downloaded_bytes == total_len(step.task.written)
                &&& report.total_bytes == Some(report.downloaded_bytes)
                &&& item.size == Some(report.downloaded_bytes)
                &&& report.progress.is_one()
                &&& report.status == DownloadStatus::Completed
                &&& item.id == task.id
                &&& item.local_path == task.path
            }
        }),
{
}

/// The status of the last report tells the outcomes apart: `completed` for
/// an item, `cancelled` for a cancellation, `error` for every failure.
pub proof fn lemma_last_report_matches_outcome(
    task: DownloadTaskView,
    registry: Map<Seq<char>, bool>,
    event: DownloadEventView,
    now: Clock,
)
    ensures
        ({
            let step = next(task, registry, event, now);
            step.action matches DownloadActionView::Finish { report, outcome } ==> {
                &&& report.id == task.id
                &&& report.status == match outcome {
                    Ok(_) => DownloadStatus::Completed,
                    Err(DownloadErrorView::Cancelled) => DownloadStatus::Cancelled,
                    Err(_) => DownloadStatus::Error,
                }
            }
        }),
{
}

/// Bytes are only ever added to the count, one written chunk at a time, and
/// a report always carries the count as it stands after the decision. So
/// the counts of successive reports never fall.
pub proof fn lemma_count_never_falls(
    task: DownloadTaskView,
    registry: Map<Seq<char>, bool>,
    event: DownloadEventView,
    now: Clock,
)
    requires
        task.wf(),
    ensures
        ({
            let step = next(task, registry, event, now);
            &&& step.task.downloaded >= task.downloaded
            &&& task.written.is_prefix_of(step.task.written)
            &&& reported(step.action) matches Some(report) ==> report.downloaded_bytes
                == step.task.downloaded && report.id == task.id
        }),
{
}

/// Progress is reported no more often than the report interval allows: a
/// report of a running download goes out only when the interval has passed
/// since the last one, and it becomes the last one.
pub proof fn lemma_reports_keep_their_distance(
    task: DownloadTaskView,
    registry: Map<Seq<char>, bool>,
    event: DownloadEventView,
    now: Clock,
)
    ensures
        ({
            let step = next(task, registry, event, now);
            step.action matches DownloadActionView::AwaitChunk(Some(report)) ==> {
                &&& report.status == DownloadStatus::Downloading
                &&& now.monotonic_ms >= task.last_report + REPORT_INTERVAL_MS
                &&& step.task.last_report == now.monotonic_ms
            }
        }),
{
}

/// The last report is the last: a finished task rejects every event, so no
/// report follows a `Finish`.
pub proof fn lemma_nothing_follows_finish(
    task: DownloadTaskView,
    registry: Map<Seq<char>, bool>,
    event: DownloadEventView,
    now: Clock,
)
    requires
        task.stage == DownloadStage::Finished,
    ensures
        next(task, registry, event, now) == reject(task, registry, event),
        reported(next(task, registry, event, now).action) is None,
{
}

/// A reported share of the download is a number between zero and one.
pub proof fn lemma_progress_is_a_fraction(downloaded: u64, total: Option<u64>)
    ensures
        progress_of(downloaded, total).wf(),
        total is None ==> progress_of(downloaded, total).is_zero(),
{
}

/// A download decides by its own id only: what another id's entry holds in
/// the registry makes no difference to the task or the action, and that
/// entry is left alone.
pub proof fn lemma_downloads_are_independent(
    task: DownloadTaskView,
    registry: Map<Seq<char>, bool>,
    other: Seq<char>,
    flag: bool,
    event: DownloadEventView,
    now: Clock,
)
    requires
        other != task.id,
    ensures
        ({
            let alone = next(task, registry, event, now);
            let beside = next(task, registry.insert(other, flag), event, now);
            &&& beside.task == alone.task
            &&& beside.action == alone.action
            &&& beside.registry == alone.registry.insert(other, flag)
        }),
{
    let alone = next(task, registry, event, now);
    let beside = next(task, registry.insert(other, flag), event, now);
    assert(registry.insert(other, flag).remove(task.id) =~= registry.remove(task.id).insert(
        other,
        flag,
    ));
}

/// What reaches a task at one decision: the registry as it stands then,
/// the event, and the time.
pub struct DownloadInput {
    pub registry: Map<Seq<char>, bool>,
    pub event: DownloadEventView,
    pub now: Clock,
}

/// The task after it has decided on each of `inputs` in turn.
pub open spec fn task_after(task: DownloadTaskView, inputs: Seq<DownloadInput>) -> DownloadTaskView
    decreases inputs.len(),
{
    if inputs.len() == 0 {
        task
    } else {
        let input = inputs.last();
        next(task_after(task, inputs.drop_last()), input.registry, input.event, input.now).task
    }
}

/// The action with which the task answers the input at index `i`, after it
/// has decided on all before it.
pub open spec fn action_at(
    task: DownloadTaskView,
    inputs: Seq<DownloadInput>,
    i: int,
) -> DownloadActionView
    recommends
        0 <= i < inputs.len(),
{
    next(task_after(task, inputs.take(i)), inputs[i].registry, inputs[i].event, inputs[i].now).action
}

/// Over any run of inputs the task stays well formed, its count never
/// falls, and once it is finished it stays finished.
pub proof fn lemma_run_is_monotone(
    task: DownloadTaskView,
    inputs: Seq<DownloadInput>,
    k: int,
    m: int,
)
    requires
        task.wf(),
        0 <= k <= m <= inputs.len(),
    ensures
        task_after(task, inputs.take(k)).wf(),
        task_after(task, inputs.take(m)).wf(),
        task_after(task, inputs.take(k)).downloaded <= task_after(task, inputs.take(m)).downloaded,
        task_after(task, inputs.take(k)).stage == DownloadStage::Finished ==> task_after(
            task,
            inputs.take(m),
        ).stage == DownloadStage::Finished,
    decreases m,
{
    if m == 0 {
        assert(inputs.take(0) =~= Seq::<DownloadInput>::empty());
    } else {
        assert(inputs.take(m).drop_last() =~= inputs.take(m - 1));
        assert(inputs.take(m).last() == inputs[m - 1]);
        let before = task_after(task, inputs.take(m - 1));
        let input = inputs[m - 1];
        if k == m {
            lemma_run_is_monotone(task, inputs, m - 1, m - 1);
        } else {
            lemma_run_is_monotone(task, inputs, k, m - 1);
        }
        lemma_next_preserves_wf(before, input.registry, input.event, input.now);
        lemma_count_never_falls(before, input.registry, input.event, input.now);
    }
}

/// The reports of one download come in order. Over any run of inputs,
/// whatever the registry holds at each of them, the byte count of a later
/// report is at least that of an earlier one, and after the report that
/// comes with `Finish` there is no other.
pub proof fn lemma_reports_are_ordered(
    task: DownloadTaskView,
    inputs: Seq<DownloadInput>,
    i: int,
    j: int,
)
    requires
        task.wf(),
        0 <= i < j < inputs.len(),
    ensures
        reported(action_at(task, inputs, i)) is Some && reported(action_at(task, inputs, j))
            is Some ==> reported(action_at(task, inputs, i))->0.downloaded_bytes <= reported(
            action_at(task, inputs, j),
        )->0.downloaded_bytes,
        action_at(task, inputs, i) is Finish ==> reported(action_at(task, inputs, j)) is None,
{
    let at_i = task_after(task, inputs.take(i));
    let at_j = task_after(task, inputs.take(j));
    assert(inputs.take(i + 1).drop_last() =~= inputs.take(i));
    assert(inputs.take(i + 1).last() == inputs[i]);
    assert(inputs.take(j + 1).drop_last() =~= inputs.take(j));
    assert(inputs.take(j + 1).last() == inputs[j]);
    lemma_run_is_monotone(task, inputs, i, j);
    lemma_run_is_monotone(task, inputs, i + 1, j);
    lemma_run_is_monotone(task, inputs, j, j + 1);
    lemma_count_never_falls(at_i, inputs[i].registry, inputs[i].event, inputs[i].now);
    lemma_count_never_falls(at_j, inputs[j].registry, inputs[j].event, inputs[j].now);
    lemma_finish_removes_entry(at_i, inputs[i].registry, inputs[i].event, inputs[i].now);
}

} // verus!
