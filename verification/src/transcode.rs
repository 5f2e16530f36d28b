//! The transcode supervisor: at most one encoder, one port and one working
//! directory at a time.
//!
//! The supervisor never starts a process or touches the disk. It names the
//! next thing to do (an action), the driver does it and reports how it went
//! (an event), and the supervisor decides again. Every start begins by
//! tearing down what exists, and every failed start takes back what it
//! made.

use crate::paths::{join_path, path_join};
use crate::text::{decimal, u64_to_decimal};
use crate::types::{opt_text, texts};
use vstd::pervasive::unreached;
use vstd::prelude::*;
use vstd::string::StringExecFns;

verus! {

/// The first port that is tried.
pub const FIRST_PORT: u16 = 9000;

/// The end of the range of ports that are tried; it is not tried itself.
pub const PORT_LIMIT: u16 = 9100;

/// How long the encoder is given to produce its first output, in
/// milliseconds.
pub const STARTUP_GRACE_MS: u64 = 2000;

/// The program that encodes.
pub const ENCODER_PROGRAM: &'static str = "ffmpeg";

/// The name of the working directory below the temporary directory.
pub const WORK_DIR_NAME: &'static str = "watchtv_transcode";

/// The name of the manifest file.
pub const MANIFEST_NAME: &'static str = "stream.m3u8";

/// The pattern after which segment files are named.
pub const SEGMENT_PATTERN: &'static str = "segment%03d.ts";

/// The address on which the stream is served.
pub const SERVER_HOST: &'static str = "127.0.0.1";

/// Why a transcode could not be started.
#[derive(Debug, Clone, PartialEq, Eq)]
pub enum TranscodeError {
    /// The working directory could not be made; the text names the cause.
    FileSystem(String),
    /// Every port of the range is taken.
    NoPortAvailable,
    /// The encoder could not be launched; the text names the cause.
    EncoderSpawn(String),
}

/// `TranscodeError` as a mathematical value.
pub enum TranscodeErrorView {
    FileSystem(Seq<char>),
    NoPortAvailable,
    EncoderSpawn(Seq<char>),
}

impl TranscodeErrorView {
    /// The error in words.
    pub open spec fn message(self) -> Seq<char> {
        match self {
            TranscodeErrorView::FileSystem(text) => text,
            TranscodeErrorView::NoPortAvailable => "Could not find an available port"@,
            TranscodeErrorView::EncoderSpawn(text) => text,
        }
    }
}

impl View for TranscodeError {
    type V = TranscodeErrorView;

    open spec fn view(&self) -> TranscodeErrorView {
        match self {
            TranscodeError::FileSystem(text) => TranscodeErrorView::FileSystem(text@),
            TranscodeError::NoPortAvailable => TranscodeErrorView::NoPortAvailable,
            TranscodeError::EncoderSpawn(text) => TranscodeErrorView::EncoderSpawn(text@),
        }
    }
}

impl TranscodeError {
    /// The error in words.
    pub fn message(&self) -> (text: String)
        ensures
            text@ == self@.message(),
    {
        match self {
            TranscodeError::FileSystem(text) => text.clone(),
            TranscodeError::NoPortAvailable => "Could not find an available port".to_owned(),
            TranscodeError::EncoderSpawn(text) => text.clone(),
        }
    }
}

/// Whether `port` lies in the range that is scanned.
pub open spec fn in_port_range(port: u16) -> bool {
    FIRST_PORT <= port < PORT_LIMIT
}

/// Finds a free port. The ports from 9000 up to and including 9099 are
/// tried in ascending order with `probe`, which says whether a port can be
/// bound; the first for which it says yes is the result, and no port
/// outside the range is ever tried. If `probe` says no to all of them, the
/// scan fails with `NoPortAvailable`.
pub fn find_available_port<F: Fn(u16) -> bool>(probe: F) -> (result: Result<u16, TranscodeError>)
    requires
        forall|port: u16| in_port_range(port) ==> call_requires(probe, (port,)),
    ensures
        match result {
            Ok(port) => {
                &&& in_port_range(port)
                &&& call_ensures(probe, (port,), true)
                &&& forall|lower: u16|
                    FIRST_PORT <= lower < port ==> call_ensures(probe, (lower,), false)
            },
            Err(error) => {
                &&& error@ == TranscodeErrorView::NoPortAvailable
                &&& forall|port: u16| in_port_range(port) ==> call_ensures(probe, (port,), false)
            },
        },
{
    let mut port: u16 = FIRST_PORT;
    while port < PORT_LIMIT
        invariant
            FIRST_PORT <= port <= PORT_LIMIT,
            forall|p: u16| in_port_range(p) ==> call_requires(probe, (p,)),
            forall|lower: u16| FIRST_PORT <= lower < port ==> call_ensures(probe, (lower,), false),
        decreases PORT_LIMIT - port,
    {
        assert(in_port_range(port));
        if probe(port) {
            return Ok(port);
        }
        port += 1;
    }
    Err(TranscodeError::NoPortAvailable)
}

/// The working directory below the temporary directory `temp_root`.
pub open spec fn work_dir_under(temp_root: Seq<char>) -> Seq<char> {
    path_join(temp_root, WORK_DIR_NAME@)
}

/// The arguments with which the encoder is launched: read `source`, encode
/// the picture fast and for low latency, encode the sound as AAC at 128k,
/// and write a segmented stream into `dir` in segments of four seconds,
/// with a manifest that keeps every segment and replaces an older one.
pub open spec fn encoder_args(source: Seq<char>, dir: Seq<char>) -> Seq<Seq<char>> {
    seq![
        "-i"@,
        source,
        "-c:v"@,
        "libx264"@,
        "-preset"@,
        "ultrafast"@,
        "-tune"@,
        "zerolatency"@,
        "-c:a"@,
        "aac"@,
        "-b:a"@,
        "128k"@,
        "-f"@,
        "hls"@,
        "-hls_time"@,
        "4"@,
        "-hls_list_size"@,
        "0"@,
        "-hls_segment_filename"@,
        path_join(dir, SEGMENT_PATTERN@),
        "-y"@,
        path_join(dir, MANIFEST_NAME@),
    ]
}

/// The address under which the stream on `port` is served.
pub open spec fn stream_url(port: u16) -> Seq<char> {
    "http://"@ + SERVER_HOST@ + ":"@ + decimal(port as nat) + "/"@ + MANIFEST_NAME@
}

/// Builds the arguments of the encoder for `source` and the working
/// directory `dir`.
pub fn build_encoder_args(source: &str, dir: &str) -> (args: Vec<String>)
    ensures
        texts(args@) == encoder_args(source@, dir@),
{
    let mut args: Vec<String> = Vec::new();
    args.push("-i".to_owned());
    args.push(source.to_owned());
    args.push("-c:v".to_owned());
    args.push("libx264".to_owned());
    args.push("-preset".to_owned());
    args.push("ultrafast".to_owned());
    args.push("-tune".to_owned());
    args.push("zerolatency".to_owned());
    args.push("-c:a".to_owned());
    args.push("aac".to_owned());
    args.push("-b:a".to_owned());
    args.push("128k".to_owned());
    args.push("-f".to_owned());
    args.push("hls".to_owned());
    args.push("-hls_time".to_owned());
    args.push("4".to_owned());
    args.push("-hls_list_size".to_owned());
    args.push("0".to_owned());
    args.push("-hls_segment_filename".to_owned());
    args.push(join_path(dir, SEGMENT_PATTERN));
    args.push("-y".to_owned());
    args.push(join_path(dir, MANIFEST_NAME));
    assert(texts(args@) =~= encoder_args(source@, dir@));
    args
}

/// Builds the address under which the stream on `port` is served.
pub fn build_stream_url(port: u16) -> (url: String)
    ensures
        url@ == stream_url(port),
{
    let number = u64_to_decimal(port as u64);
    let url = "http://".to_owned().concat(SERVER_HOST).concat(":").concat(number.as_str()).concat(
        "/",
    ).concat(MANIFEST_NAME);
    assert(url@ =~= stream_url(port));
    url
}

/// What the driver reports after it has carried out an action. `P` is the
/// driver's handle on a running encoder.
#[derive(Debug, Clone, PartialEq, Eq)]
pub enum TranscodeEvent<P> {
    /// The action succeeded and there is nothing more to say.
    Done,
    /// The action failed; the text names the cause.
    Failed(String),
    /// This port is free.
    Port(u16),
    /// No port of the range is free.
    NoPort,
    /// The encoder runs, and this is the handle on it.
    Spawned(P),
}

/// `TranscodeEvent` as a mathematical value.
pub enum TranscodeEventView<P> {
    Done,
    Failed(Seq<char>),
    Port(u16),
    NoPort,
    Spawned(P),
}

impl<P> View for TranscodeEvent<P> {
    type V = TranscodeEventView<P>;

    open spec fn view(&self) -> TranscodeEventView<P> {
        match *self {
            TranscodeEvent::Done => TranscodeEventView::Done,
            TranscodeEvent::Failed(cause) => TranscodeEventView::Failed(cause@),
            TranscodeEvent::Port(port) => TranscodeEventView::Port(port),
            TranscodeEvent::NoPort => TranscodeEventView::NoPort,
            TranscodeEvent::Spawned(process) => TranscodeEventView::Spawned(process),
        }
    }
}

/// How a request to the supervisor ended.
#[derive(Debug, Clone, PartialEq, Eq)]
pub enum TranscodeOutcome {
    /// The stream is served under this address.
    Started(String),
    /// Nothing runs any more.
    Stopped,
    /// The start failed, and what it had made is taken back.
    Failed(TranscodeError),
}

/// `TranscodeOutcome` as a mathematical value.
pub enum TranscodeOutcomeView {
    Started(Seq<char>),
    Stopped,
    Failed(TranscodeErrorView),
}

impl View for TranscodeOutcome {
    type V = TranscodeOutcomeView;

    open spec fn view(&self) -> TranscodeOutcomeView {
        match self {
            TranscodeOutcome::Started(url) => TranscodeOutcomeView::Started(url@),
            TranscodeOutcome::Stopped => TranscodeOutcomeView::Stopped,
            TranscodeOutcome::Failed(error) => TranscodeOutcomeView::Failed(error@),
        }
    }
}

/// What the driver is to do next.
#[derive(Debug, PartialEq, Eq)]
pub enum TranscodeAction<P> {
    /// Kill this encoder by force and wait until it is gone; answer `Done`
    /// or `Failed`.
    Kill(P),
    /// Delete this directory with all that is in it; answer `Done` or
    /// `Failed`.
    RemoveDir(String),
    /// Create this directory and its parents; answer `Done` or `Failed`.
    CreateDir(String),
    /// Find a free port with `find_available_port`; answer `Port` or
    /// `NoPort`.
    AllocatePort,
    /// Launch the encoder with these arguments, its input and output
    /// discarded, its errors captured, and bound to die with the driver;
    /// answer `Spawned` or `Failed`.
    Spawn(Vec<String>),
    /// Serve the files of this directory on this port of the loopback
    /// address, open to any origin; answer `Done` or `Failed`.
    Serve { port: u16, dir: String },
    /// Wait this many milliseconds; answer `Done`.
    Wait(u64),
    /// Hand this outcome to the caller. The request is over.
    Finish(TranscodeOutcome),
    /// The event does not answer what the supervisor waits for. Nothing
    /// changed, and the event comes back as it was.
    Rejected(TranscodeEvent<P>),
}

/// `TranscodeAction` as a mathematical value.
pub enum TranscodeActionView<P> {
    Kill(P),
    RemoveDir(Seq<char>),
    CreateDir(Seq<char>),
    AllocatePort,
    Spawn(Seq<Seq<char>>),
    Serve { port: u16, dir: Seq<char> },
    Wait(u64),
    Finish(TranscodeOutcomeView),
    Rejected(TranscodeEventView<P>),
}

impl<P> View for TranscodeAction<P> {
    type V = TranscodeActionView<P>;

    open spec fn view(&self) -> TranscodeActionView<P> {
        match *self {
            TranscodeAction::Kill(process) => TranscodeActionView::Kill(process),
            TranscodeAction::RemoveDir(dir) => TranscodeActionView::RemoveDir(dir@),
            TranscodeAction::CreateDir(dir) => TranscodeActionView::CreateDir(dir@),
            TranscodeAction::AllocatePort => TranscodeActionView::AllocatePort,
            TranscodeAction::Spawn(args) => TranscodeActionView::Spawn(texts(args@)),
            TranscodeAction::Serve { port, dir } => TranscodeActionView::Serve { port, dir: dir@ },
            TranscodeAction::Wait(ms) => TranscodeActionView::Wait(ms),
            TranscodeAction::Finish(outcome) => TranscodeActionView::Finish(outcome@),
            TranscodeAction::Rejected(event) => TranscodeActionView::Rejected(event@),
        }
    }
}

/// What the supervisor waits for.
#[derive(Debug, Clone, Copy, PartialEq, Eq, Structural)]
pub enum TranscodeStage {
    /// For nothing: no request is being carried out.
    Resting,
    /// For the old encoder to be killed.
    Killing,
    /// For the old working directory to be deleted.
    RemovingDir,
    /// For the new working directory to be created.
    CreatingDir,
    /// For a free port.
    AllocatingPort,
    /// For the encoder to be launched; the stream will be served on this
    /// port.
    Spawning(u16),
    /// For the file server to be started.
    Serving,
    /// For the startup grace to pass.
    Settling,
    /// For the working directory of a failed start to be deleted.
    RollingBack,
}

/// The supervisor's state as callers see it.
#[derive(Debug, Clone, Copy, PartialEq, Eq, Structural)]
pub enum Phase {
    /// Nothing runs and nothing is being done.
    Idle,
    /// A start is being carried out.
    Starting,
    /// A session runs and nothing is being done.
    Running,
    /// A stop is being carried out.
    Stopping,
}

/// The start that is being carried out.
struct StartRequest {
    source: String,
    dir: String,
}

/// `StartRequest` as a mathematical value.
pub struct StartRequestView {
    /// What is to be encoded.
    pub source: Seq<char>,
    /// The working directory that the start makes.
    pub dir: Seq<char>,
}

/// The transcode supervisor. It owns the handle on the encoder, the port
/// and the working directory of the one session that may exist.
pub struct TranscodeState<P> {
    ffmpeg_process: Option<P>,
    server_port: Option<u16>,
    output_dir: Option<String>,
    stage: TranscodeStage,
    request: Option<StartRequest>,
    failure: Option<TranscodeError>,
}

/// The supervisor as a mathematical value.
pub struct TranscodeStateView<P> {
    /// The handle on the encoder, while one is held.
    pub process: Option<P>,
    /// The port of the session.
    pub port: Option<u16>,
    /// The working directory, while one exists.
    pub dir: Option<Seq<char>>,
    /// What the supervisor waits for.
    pub stage: TranscodeStage,
    /// The start that is being carried out, if one is.
    pub request: Option<StartRequestView>,
    /// Why the start that is being taken back failed.
    pub failure: Option<TranscodeErrorView>,
}

impl<P> TranscodeStateView<P> {
    /// Whether no encoder, no port and no working directory is recorded.
    pub open spec fn holds_nothing(self) -> bool {
        self.process is None && self.port is None && self.dir is None
    }

    /// Whether an encoder, a port and a working directory are all recorded.
    pub open spec fn holds_session(self) -> bool {
        self.process is Some && self.port is Some && self.dir is Some
    }

    /// What each stage means for the three resources. At rest they exist
    /// together or not at all; an encoder is held only while a
    /// directory for its output exists.
    pub open spec fn wf(self) -> bool {
        match self.stage {
            TranscodeStage::Resting => {
                &&& self.holds_nothing() || self.holds_session()
                &&& self.request is None
                &&& self.failure is None
            },
            TranscodeStage::Killing => self.process is None && self.failure is None,
            TranscodeStage::RemovingDir => {
                self.process is None && self.dir is None && self.failure is None
            },
            TranscodeStage::CreatingDir => {
                self.holds_nothing() && self.request is Some && self.failure is None
            },
            TranscodeStage::AllocatingPort | TranscodeStage::Spawning(_) => {
                &&& self.process is None
                &&& self.port is None
                &&& self.request matches Some(request)
                &&& self.dir == Some(request.dir)
                &&& self.failure is None
            },
            TranscodeStage::Serving | TranscodeStage::Settling => {
                &&& self.process is Some
                &&& self.port is Some
                &&& self.request matches Some(request)
                &&& self.dir == Some(request.dir)
                &&& self.failure is None
            },
            TranscodeStage::RollingBack => {
                self.holds_nothing() && self.request is None && self.failure is Some
            },
        }
    }

    /// The supervisor's state as callers see it.
    pub open spec fn phase(self) -> Phase {
        match self.stage {
            TranscodeStage::Resting => if self.process is Some {
                Phase::Running
            } else {
                Phase::Idle
            },
            TranscodeStage::Killing | TranscodeStage::RemovingDir => if self.request is Some {
                Phase::Starting
            } else {
                Phase::Stopping
            },
            _ => Phase::Starting,
        }
    }

    /// The most actions that the driver may still be asked to carry out
    /// before the request is over.
    pub open spec fn actions_left(self) -> nat {
        match self.stage {
            TranscodeStage::Resting => 0,
            TranscodeStage::RollingBack => 1,
            TranscodeStage::Settling => 1,
            TranscodeStage::Serving => 2,
            TranscodeStage::Spawning(_) => 3,
            TranscodeStage::AllocatingPort => 4,
            TranscodeStage::CreatingDir => 5,
            TranscodeStage::RemovingDir => if self.request is Some {
                6
            } else {
                1
            },
            TranscodeStage::Killing => if self.request is Some {
                7
            } else {
                2
            },
        }
    }
}

/// The outcome of one decision: the supervisor after it, and the action
/// that the driver is to carry out.
pub struct TranscodeStep<P> {
    pub state: TranscodeStateView<P>,
    pub action: TranscodeActionView<P>,
}

/// The supervisor at rest with nothing recorded.
pub open spec fn idle<P>() -> TranscodeStateView<P> {
    TranscodeStateView {
        process: None,
        port: None,
        dir: None,
        stage: TranscodeStage::Resting,
        request: None,
        failure: None,
    }
}

/// Teardown, first step: an encoder that is held is handed out to be killed and
/// is held no more.
pub open spec fn tear_down<P>(state: TranscodeStateView<P>) -> TranscodeStep<P> {
    match state.process {
        Some(process) => TranscodeStep {
            state: TranscodeStateView { process: None, stage: TranscodeStage::Killing, ..state },
            action: TranscodeActionView::Kill(process),
        },
        None => after_kill(state),
    }
}

/// Teardown, second step, taken whether or not the kill went well: a
/// recorded working directory is handed out to be deleted and is recorded
/// no more.
pub open spec fn after_kill<P>(state: TranscodeStateView<P>) -> TranscodeStep<P> {
    match state.dir {
        Some(dir) => TranscodeStep {
            state: TranscodeStateView { dir: None, stage: TranscodeStage::RemovingDir, ..state },
            action: TranscodeActionView::RemoveDir(dir),
        },
        None => after_remove(state),
    }
}

/// Teardown, third step, taken whether or not the deletion went well: the
/// port is cleared. A stop is then over; a start goes on to make its
/// working directory.
pub open spec fn after_remove<P>(state: TranscodeStateView<P>) -> TranscodeStep<P> {
    match state.request {
        Some(request) => TranscodeStep {
            state: TranscodeStateView { port: None, stage: TranscodeStage::CreatingDir, ..state },
            action: TranscodeActionView::CreateDir(request.dir),
        },
        None => TranscodeStep {
            state: TranscodeStateView { port: None, stage: TranscodeStage::Resting, ..state },
            action: TranscodeActionView::Finish(TranscodeOutcomeView::Stopped),
        },
    }
}

/// A start fails with `error` after its working directory was made: the
/// directory is handed out to be deleted, and the error waits until that
/// is done.
pub open spec fn roll_back<P>(
    state: TranscodeStateView<P>,
    error: TranscodeErrorView,
) -> TranscodeStep<P> {
    match state.dir {
        Some(dir) => TranscodeStep {
            state: TranscodeStateView {
                dir: None,
                port: None,
                request: None,
                failure: Some(error),
                stage: TranscodeStage::RollingBack,
                ..state
            },
            action: TranscodeActionView::RemoveDir(dir),
        },
        None => TranscodeStep {
            state: TranscodeStateView {
                port: None,
                request: None,
                failure: None,
                stage: TranscodeStage::Resting,
                ..state
            },
            action: TranscodeActionView::Finish(TranscodeOutcomeView::Failed(error)),
        },
    }
}

/// The event does not answer what the supervisor waits for: nothing
/// changes.
pub open spec fn refuse<P>(
    state: TranscodeStateView<P>,
    event: TranscodeEventView<P>,
) -> TranscodeStep<P> {
    TranscodeStep { state, action: TranscodeActionView::Rejected(event) }
}

/// The message of an encoder that could not be launched.
pub open spec fn spawn_failure(cause: Seq<char>) -> Seq<char> {
    "Failed to start FFmpeg: "@ + cause + ". Make sure FFmpeg is installed."@
}

/// The message of a working directory that could not be made.
pub open spec fn create_dir_failure(cause: Seq<char>) -> Seq<char> {
    "Failed to create temp directory: "@ + cause
}

/// A request to transcode `source` arrives: whatever the supervisor was
/// doing, it now tears down what is recorded and then starts anew, with a
/// working directory below `temp_root`.
pub open spec fn start<P>(
    state: TranscodeStateView<P>,
    source: Seq<char>,
    temp_root: Seq<char>,
) -> TranscodeStep<P> {
    tear_down(
        TranscodeStateView {
            request: Some(StartRequestView { source, dir: work_dir_under(temp_root) }),
            failure: None,
            ..state
        },
    )
}

/// A request to stop arrives: whatever the supervisor was doing, it now
/// tears down what is recorded and then rests.
pub open spec fn stop<P>(state: TranscodeStateView<P>) -> TranscodeStep<P> {
    tear_down(TranscodeStateView { request: None, failure: None, ..state })
}

/// The supervisor's decision when `event` arrives.
pub open spec fn next<P>(
    state: TranscodeStateView<P>,
    event: TranscodeEventView<P>,
) -> TranscodeStep<P> {
    match (state.stage, event) {
        (TranscodeStage::Killing, TranscodeEventView::Done) => after_kill(state),
        (TranscodeStage::Killing, TranscodeEventView::Failed(_)) => after_kill(state),
        (TranscodeStage::RemovingDir, TranscodeEventView::Done) => after_remove(state),
        (TranscodeStage::RemovingDir, TranscodeEventView::Failed(_)) => after_remove(state),
        (TranscodeStage::CreatingDir, TranscodeEventView::Done) => match state.request {
            Some(request) => TranscodeStep {
                state: TranscodeStateView {
                    dir: Some(request.dir),
                    stage: TranscodeStage::AllocatingPort,
                    ..state
                },
                action: TranscodeActionView::AllocatePort,
            },
            None => refuse(state, event),
        },
        (TranscodeStage::CreatingDir, TranscodeEventView::Failed(cause)) => TranscodeStep {
            state: TranscodeStateView { request: None, stage: TranscodeStage::Resting, ..state },
            action: TranscodeActionView::Finish(
                TranscodeOutcomeView::Failed(
                    TranscodeErrorView::FileSystem(create_dir_failure(cause)),
                ),
            ),
        },
        (TranscodeStage::AllocatingPort, TranscodeEventView::Port(port)) => match state.request {
            Some(request) => TranscodeStep {
                state: TranscodeStateView { stage: TranscodeStage::Spawning(port), ..state },
                action: TranscodeActionView::Spawn(encoder_args(request.source, request.dir)),
            },
            None => refuse(state, event),
        },
        (TranscodeStage::AllocatingPort, TranscodeEventView::NoPort) => roll_back(
            state,
            TranscodeErrorView::NoPortAvailable,
        ),
        (TranscodeStage::Spawning(port), TranscodeEventView::Spawned(process)) => match state.dir {
            Some(dir) => TranscodeStep {
                state: TranscodeStateView {
                    process: Some(process),
                    port: Some(port),
                    stage: TranscodeStage::Serving,
                    ..state
                },
                action: TranscodeActionView::Serve { port, dir },
            },
            None => refuse(state, event),
        },
        (TranscodeStage::Spawning(_), TranscodeEventView::Failed(cause)) => roll_back(
            state,
            TranscodeErrorView::EncoderSpawn(spawn_failure(cause)),
        ),
        (TranscodeStage::Serving, TranscodeEventView::Done) => settle(state),
        (TranscodeStage::Serving, TranscodeEventView::Failed(_)) => settle(state),
        (TranscodeStage::Settling, TranscodeEventView::Done) => match state.port {
            Some(port) => TranscodeStep {
                state: TranscodeStateView {
                    request: None,
                    stage: TranscodeStage::Resting,
                    ..state
                },
                action: TranscodeActionView::Finish(
                    TranscodeOutcomeView::Started(stream_url(port)),
                ),
            },
            None => refuse(state, event),
        },
        (TranscodeStage::RollingBack, TranscodeEventView::Done) => give_up(state, event),
        (TranscodeStage::RollingBack, TranscodeEventView::Failed(_)) => give_up(state, event),
        _ => refuse(state, event),
    }
}

/// The file server was asked for: the encoder gets its startup grace.
pub open spec fn settle<P>(state: TranscodeStateView<P>) -> TranscodeStep<P> {
    TranscodeStep {
        state: TranscodeStateView { stage: TranscodeStage::Settling, ..state },
        action: TranscodeActionView::Wait(STARTUP_GRACE_MS),
    }
}

/// What a failed start had made is taken back: the error goes to the
/// caller.
pub open spec fn give_up<P>(
    state: TranscodeStateView<P>,
    event: TranscodeEventView<P>,
) -> TranscodeStep<P> {
    match state.failure {
        Some(error) => TranscodeStep {
            state: TranscodeStateView { failure: None, stage: TranscodeStage::Resting, ..state },
            action: TranscodeActionView::Finish(TranscodeOutcomeView::Failed(error)),
        },
        None => refuse(state, event),
    }
}

impl View for StartRequest {
    type V = StartRequestView;

    closed spec fn view(&self) -> StartRequestView {
        StartRequestView { source: self.source@, dir: self.dir@ }
    }
}

/// The view of a start that may be under way.
spec fn request_view(request: Option<StartRequest>) -> Option<StartRequestView> {
    match request {
        Some(r) => Some(r@),
        None => None,
    }
}

/// The view of a failure that may be waiting.
spec fn failure_view(failure: Option<TranscodeError>) -> Option<TranscodeErrorView> {
    match failure {
        Some(e) => Some(e@),
        None => None,
    }
}

impl<P> View for TranscodeState<P> {
    type V = TranscodeStateView<P>;

    closed spec fn view(&self) -> TranscodeStateView<P> {
        TranscodeStateView {
            process: self.ffmpeg_process,
            port: self.server_port,
            dir: opt_text(self.output_dir),
            stage: self.stage,
            request: request_view(self.request),
            failure: failure_view(self.failure),
        }
    }
}

impl<P> TranscodeState<P> {
    #[verifier::type_invariant]
    spec fn well_formed(self) -> bool {
        self@.wf()
    }

    /// A supervisor at rest with nothing recorded.
    pub fn new() -> (state: TranscodeState<P>)
        ensures
            state@ == idle::<P>(),
            state@.phase() == Phase::Idle,
    {
        TranscodeState {
            ffmpeg_process: None,
            server_port: None,
            output_dir: None,
            stage: TranscodeStage::Resting,
            request: None,
            failure: None,
        }
    }

    /// What the supervisor waits for.
    pub fn stage(&self) -> (stage: TranscodeStage)
        ensures
            stage == self@.stage,
    {
        self.stage
    }

    /// The supervisor's state as callers see it.
    pub fn phase(&self) -> (phase: Phase)
        ensures
            phase == self@.phase(),
    {
        match self.stage {
            TranscodeStage::Resting => if self.ffmpeg_process.is_some() {
                Phase::Running
            } else {
                Phase::Idle
            },
            TranscodeStage::Killing | TranscodeStage::RemovingDir => if self.request.is_some() {
                Phase::Starting
            } else {
                Phase::Stopping
            },
            _ => Phase::Starting,
        }
    }

    /// The port of the session, if one is recorded.
    pub fn server_port(&self) -> (port: Option<u16>)
        ensures
            port == self@.port,
    {
        self.server_port
    }

    /// The working directory, if one is recorded.
    pub fn output_dir(&self) -> (dir: Option<String>)
        ensures
            opt_text(dir) == self@.dir,
    {
        self.output_dir.clone()
    }

    /// Whether an encoder is held.
    pub fn has_process(&self) -> (present: bool)
        ensures
            present == self@.process is Some,
    {
        self.ffmpeg_process.is_some()
    }

    fn after_remove(request: Option<StartRequest>) -> (step: (
        TranscodeState<P>,
        TranscodeAction<P>,
    ))
        ensures
            ({
                let spec = after_remove(
                    TranscodeStateView::<P> { request: request_view(request), ..idle() },
                );
                step.0@ == spec.state && step.1@ == spec.action
            }),
    {
        match request {
            Some(request) => {
                let action = TranscodeAction::CreateDir(request.dir.clone());
                (
                    TranscodeState {
                        ffmpeg_process: None,
                        server_port: None,
                        output_dir: None,
                        stage: TranscodeStage::CreatingDir,
                        request: Some(request),
                        failure: None,
                    },
                    action,
                )
            },
            None => (TranscodeState::new(), TranscodeAction::Finish(TranscodeOutcome::Stopped)),
        }
    }

    fn after_kill(port: Option<u16>, dir: Option<String>, request: Option<StartRequest>) -> (step:
        (TranscodeState<P>, TranscodeAction<P>))
        ensures
            ({
                let spec = after_kill(
                    TranscodeStateView::<P> {
                        port,
                        dir: opt_text(dir),
                        request: request_view(request),
                        ..idle()
                    },
                );
                step.0@ == spec.state && step.1@ == spec.action
            }),
    {
        match dir {
            Some(dir) => (
                TranscodeState {
                    ffmpeg_process: None,
                    server_port: port,
                    output_dir: None,
                    stage: TranscodeStage::RemovingDir,
                    request,
                    failure: None,
                },
                TranscodeAction::RemoveDir(dir),
            ),
            None => Self::after_remove(request),
        }
    }

    fn tear_down(
        process: Option<P>,
        port: Option<u16>,
        dir: Option<String>,
        request: Option<StartRequest>,
    ) -> (step: (TranscodeState<P>, TranscodeAction<P>))
        ensures
            ({
                let spec = tear_down(
                    TranscodeStateView::<P> {
                        process,
                        port,
                        dir: opt_text(dir),
                        request: request_view(request),
                        ..idle()
                    },
                );
                step.0@ == spec.state && step.1@ == spec.action
            }),
    {
        match process {
            Some(process) => (
                TranscodeState {
                    ffmpeg_process: None,
                    server_port: port,
                    output_dir: dir,
                    stage: TranscodeStage::Killing,
                    request,
                    failure: None,
                },
                TranscodeAction::Kill(process),
            ),
            None => Self::after_kill(port, dir, request),
        }
    }

    fn roll_back(dir: Option<String>, error: TranscodeError) -> (step: (
        TranscodeState<P>,
        TranscodeAction<P>,
    ))
        ensures
            ({
                let spec = roll_back(
                    TranscodeStateView::<P> { dir: opt_text(dir), ..idle() },
                    error@,
                );
                step.0@ == spec.state && step.1@ == spec.action
            }),
    {
        match dir {
            Some(dir) => (
                TranscodeState {
                    ffmpeg_process: None,
                    server_port: None,
                    output_dir: None,
                    stage: TranscodeStage::RollingBack,
                    request: None,
                    failure: Some(error),
                },
                TranscodeAction::RemoveDir(dir),
            ),
            None => (
                TranscodeState::new(),
                TranscodeAction::Finish(TranscodeOutcome::Failed(error)),
            ),
        }
    }

    /// Takes up a request to transcode `source_path`, by value.
    fn begin_start(self, source_path: &str, temp_root: &str) -> (step: (
        TranscodeState<P>,
        TranscodeAction<P>,
    ))
        ensures
            step.0@ == start(self@, source_path@, temp_root@).state,
            step.1@ == start(self@, source_path@, temp_root@).action,
    {
        let TranscodeState { ffmpeg_process, server_port, output_dir, .. } = self;
        let dir = join_path(temp_root, WORK_DIR_NAME);
        let request = StartRequest { source: source_path.to_owned(), dir };
        Self::tear_down(ffmpeg_process, server_port, output_dir, Some(request))
    }

    /// Takes up a request to stop, by value.
    fn begin_stop(self) -> (step: (TranscodeState<P>, TranscodeAction<P>))
        ensures
            step.0@ == stop(self@).state,
            step.1@ == stop(self@).action,
    {
        let TranscodeState { ffmpeg_process, server_port, output_dir, .. } = self;
        Self::tear_down(ffmpeg_process, server_port, output_dir, None)
    }

    /// Decides on `event`, by value.
    fn advance(self, event: TranscodeEvent<P>) -> (step: (TranscodeState<P>, TranscodeAction<P>))
        ensures
            step.0@ == next(self@, event@).state,
            step.1@ == next(self@, event@).action,
    {
        proof {
            use_type_invariant(&self);
        }
        let TranscodeState { ffmpeg_process, server_port, output_dir, stage, request, failure } =
            self;
        match (stage, event) {
            (TranscodeStage::Killing, TranscodeEvent::Done)
            | (TranscodeStage::Killing, TranscodeEvent::Failed(_)) => Self::after_kill(
                server_port,
                output_dir,
                request,
            ),
            (TranscodeStage::RemovingDir, TranscodeEvent::Done)
            | (TranscodeStage::RemovingDir, TranscodeEvent::Failed(_)) => Self::after_remove(
                request,
            ),
            (TranscodeStage::CreatingDir, TranscodeEvent::Done) => match request {
                Some(request) => (
                    TranscodeState {
                        ffmpeg_process: None,
                        server_port: None,
                        output_dir: Some(request.dir.clone()),
                        stage: TranscodeStage::AllocatingPort,
                        request: Some(request),
                        failure: None,
                    },
                    TranscodeAction::AllocatePort,
                ),
                None => unreached(),
            },
            (TranscodeStage::CreatingDir, TranscodeEvent::Failed(cause)) => {
                let text = "Failed to create temp directory: ".to_owned().concat(cause.as_str());
                (
                    TranscodeState::new(),
                    TranscodeAction::Finish(
                        TranscodeOutcome::Failed(TranscodeError::FileSystem(text)),
                    ),
                )
            },
            (TranscodeStage::AllocatingPort, TranscodeEvent::Port(port)) => match request {
                Some(request) => {
                    let args = build_encoder_args(request.source.as_str(), request.dir.as_str());
                    (
                        TranscodeState {
                            ffmpeg_process: None,
                            server_port: None,
                            output_dir,
                            stage: TranscodeStage::Spawning(port),
                            request: Some(request),
                            failure: None,
                        },
                        TranscodeAction::Spawn(args),
                    )
                },
                None => unreached(),
            },
            (TranscodeStage::AllocatingPort, TranscodeEvent::NoPort) => Self::roll_back(
                output_dir,
                TranscodeError::NoPortAvailable,
            ),
            (TranscodeStage::Spawning(port), TranscodeEvent::Spawned(process)) => match output_dir {
                Some(dir) => {
                    let action = TranscodeAction::Serve { port, dir: dir.clone() };
                    (
                        TranscodeState {
                            ffmpeg_process: Some(process),
                            server_port: Some(port),
                            output_dir: Some(dir),
                            stage: TranscodeStage::Serving,
                            request,
                            failure: None,
                        },
                        action,
                    )
                },
                None => unreached(),
            },
            (TranscodeStage::Spawning(_), TranscodeEvent::Failed(cause)) => {
                let text = "Failed to start FFmpeg: ".to_owned().concat(cause.as_str()).concat(
                    ". Make sure FFmpeg is installed.",
                );
                Self::roll_back(output_dir, TranscodeError::EncoderSpawn(text))
            },
            (TranscodeStage::Serving, TranscodeEvent::Done)
            | (TranscodeStage::Serving, TranscodeEvent::Failed(_)) => (
                TranscodeState {
                    ffmpeg_process,
                    server_port,
                    output_dir,
                    stage: TranscodeStage::Settling,
                    request,
                    failure,
                },
                TranscodeAction::Wait(STARTUP_GRACE_MS),
            ),
            (TranscodeStage::Settling, TranscodeEvent::Done) => match server_port {
                Some(port) => (
                    TranscodeState {
                        ffmpeg_process,
                        server_port,
                        output_dir,
                        stage: TranscodeStage::Resting,
                        request: None,
                        failure: None,
                    },
                    TranscodeAction::Finish(TranscodeOutcome::Started(build_stream_url(port))),
                ),
                None => unreached(),
            },
            (TranscodeStage::RollingBack, TranscodeEvent::Done)
            | (TranscodeStage::RollingBack, TranscodeEvent::Failed(_)) => match failure {
                Some(error) => (
                    TranscodeState::new(),
                    TranscodeAction::Finish(TranscodeOutcome::Failed(error)),
                ),
                None => unreached(),
            },
            (stage, event) => (
                TranscodeState { ffmpeg_process, server_port, output_dir, stage, request, failure },
                TranscodeAction::Rejected(event),
            ),
        }
    }

    /// Decides what to do when `event` arrives. The supervisor changes, and
    /// the action comes out, exactly as `next` says.
    pub fn step(&mut self, event: TranscodeEvent<P>) -> (action: TranscodeAction<P>)
        ensures
            final(self)@ == next(old(self)@, event@).state,
            action@ == next(old(self)@, event@).action,
            final(self)@.wf(),
    {
        let mut current = TranscodeState::new();
        core::mem::swap(self, &mut current);
        let (state, action) = current.advance(event);
        proof {
            use_type_invariant(&state);
        }
        *self = state;
        action
    }
}

impl<P> Default for TranscodeState<P> {
    fn default() -> (state: TranscodeState<P>)
        ensures
            state@ == idle::<P>(),
    {
        TranscodeState::new()
    }
}

/// Takes up a request to transcode `source_path` into a working directory
/// below `temp_root`. First what exists is torn down: the encoder
/// is killed, then the recorded directory is deleted, then the port is
/// cleared, each whether or not the step before went well. Then the new
/// session is built up. The result is the first action of all that.
pub fn start_transcode<P>(state: &mut TranscodeState<P>, source_path: &str, temp_root: &str) -> (action:
    TranscodeAction<P>)
    ensures
        final(state)@ == start(old(state)@, source_path@, temp_root@).state,
        action@ == start(old(state)@, source_path@, temp_root@).action,
        final(state)@.wf(),
{
    let mut current = TranscodeState::new();
    core::mem::swap(state, &mut current);
    let (begun, action) = current.begin_start(source_path, temp_root);
    proof {
        use_type_invariant(&begun);
    }
    *state = begun;
    action
}

/// Takes up a request to tear down what exists: the encoder is
/// killed, then the recorded directory is deleted, then the port is
/// cleared, each whether or not the step before went well. The result is
/// the first action of that; on a supervisor that holds nothing it is
/// `Finish(Stopped)` at once.
pub fn stop_transcode_internal<P>(state: &mut TranscodeState<P>) -> (action: TranscodeAction<P>)
    ensures
        final(state)@ == stop(old(state)@).state,
        action@ == stop(old(state)@).action,
        final(state)@.wf(),
{
    let mut current = TranscodeState::new();
    core::mem::swap(state, &mut current);
    let (begun, action) = current.begin_stop();
    proof {
        use_type_invariant(&begun);
    }
    *state = begun;
    action
}

/// Takes up a request to stop the session. Stopping cannot fail: whatever
/// the driver reports, the request ends with `Finish(Stopped)` and the
/// supervisor idle.
pub fn stop_transcode<P>(state: &mut TranscodeState<P>) -> (action: TranscodeAction<P>)
    ensures
        final(state)@ == stop(old(state)@).state,
        action@ == stop(old(state)@).action,
        final(state)@.wf(),
{
    stop_transcode_internal(state)
}

/// Whether `event` reports that an action is over, well or not.
pub open spec fn is_answer<P>(event: TranscodeEventView<P>) -> bool {
    event is Done || event is Failed
}

/// Requests and decisions keep the supervisor well formed.
pub proof fn lemma_wf_is_kept<P>(
    state: TranscodeStateView<P>,
    event: TranscodeEventView<P>,
    source: Seq<char>,
    temp_root: Seq<char>,
)
    requires
        state.wf(),
    ensures
        idle::<P>().wf(),
        start(state, source, temp_root).state.wf(),
        stop(state).state.wf(),
        next(state, event).state.wf(),
{
}

/// Stopping a supervisor that is idle does nothing: the request is over at
/// once, and the supervisor is as it was, idle.
pub proof fn lemma_stop_when_idle_changes_nothing<P>(state: TranscodeStateView<P>)
    requires
        state.wf(),
        state.phase() == Phase::Idle,
    ensures
        stop(state).state == state,
        stop(state).action == TranscodeActionView::<P>::Finish(TranscodeOutcomeView::Stopped),
        stop(state).state.phase() == Phase::Idle,
{
}

/// A stop always ends idle, and never with an error. From any state it
/// takes at most two actions, the kill before the deletion, and whatever
/// the driver answers to them the request ends with `Stopped` and with no
/// encoder, port or directory recorded.
pub proof fn lemma_stop_ends_idle<P>(
    state: TranscodeStateView<P>,
    first: TranscodeEventView<P>,
    second: TranscodeEventView<P>,
)
    requires
        state.wf(),
        is_answer(first),
        is_answer(second),
    ensures
        ({
            let begun = stop(state);
            let then = next(begun.state, first);
            let last = next(then.state, second);
            let stopped = TranscodeActionView::<P>::Finish(TranscodeOutcomeView::Stopped);
            if begun.action == stopped {
                begun.state == idle::<P>()
            } else if then.action == stopped {
                &&& begun.action is Kill || begun.action is RemoveDir
                &&& then.state == idle::<P>()
            } else {
                &&& begun.action is Kill
                &&& then.action is RemoveDir
                &&& last.action == stopped
                &&& last.state == idle::<P>()
            }
        }),
{
}

/// Teardown hands out exactly what is recorded: the encoder that is held
/// is the one to be killed, the recorded directory is the one to be
/// deleted, and from that moment neither is recorded any more.
pub proof fn lemma_teardown_hands_out_what_is_held<P>(state: TranscodeStateView<P>)
    requires
        state.wf(),
    ensures
        state.process matches Some(process) ==> {
            &&& stop(state).action == TranscodeActionView::Kill(process)
            &&& stop(state).state.process is None
        },
        state.process is None && state.dir is Some ==> {
            &&& stop(state).action == TranscodeActionView::<P>::RemoveDir(state.dir->0)
            &&& stop(state).state.dir is None
        },
{
}

/// The driver's loop ends: every event that is not rejected brings the
/// request nearer to its end, a start is over after at most eight actions
/// and a stop after at most three, and the request is over exactly when
/// the supervisor rests.
pub proof fn lemma_requests_end<P>(
    state: TranscodeStateView<P>,
    event: TranscodeEventView<P>,
    source: Seq<char>,
    temp_root: Seq<char>,
)
    requires
        state.wf(),
    ensures
        start(state, source, temp_root).state.actions_left() <= 7,
        stop(state).state.actions_left() <= 2,
        !(next(state, event).action is Rejected) ==> next(state, event).state.actions_left()
            < state.actions_left(),
        next(state, event).action is Rejected ==> next(state, event).state == state,
        !(next(state, event).action is Rejected) ==> (next(state, event).action is Finish <==> next(
            state,
            event,
        ).state.stage == TranscodeStage::Resting),
        state.stage == TranscodeStage::Resting ==> next(state, event).action is Rejected,
{
}

/// When a request is over, the resources are there together or not at
/// all. After `Started` the supervisor runs a session, and the address
/// names its port; after `Stopped` or `Failed` it is idle and records
/// nothing, so a start may be tried again at once.
pub proof fn lemma_finish_leaves_all_or_nothing<P>(
    state: TranscodeStateView<P>,
    event: TranscodeEventView<P>,
)
    requires
        state.wf(),
    ensures
        next(state, event).action matches TranscodeActionView::Finish(outcome) ==> match outcome {
            TranscodeOutcomeView::Started(url) => {
                &&& next(state, event).state.phase() == Phase::Running
                &&& next(state, event).state.holds_session()
                &&& url == stream_url(next(state, event).state.port->0)
            },
            _ => next(state, event).state == idle::<P>(),
        },
{
}

/// Sessions never overlap: the encoder is launched only while none is
/// held, and a new one is taken up only in answer to that launch.
pub proof fn lemma_one_encoder_at_a_time<P>(
    state: TranscodeStateView<P>,
    event: TranscodeEventView<P>,
)
    requires
        state.wf(),
    ensures
        next(state, event).action is Spawn ==> state.process is None && next(
            state,
            event,
        ).state.process is None,
        next(state, event).state.process is Some && state.process is None ==> {
            &&& state.stage is Spawning
            &&& event matches TranscodeEventView::Spawned(process)
            &&& next(state, event).state.process == Some(process)
        },
        state.process is Some ==> next(state, event).state.process == state.process,
{
}

/// With every port taken, a start fails with `NoPortAvailable` and leaves
/// no working directory behind: the directory that the start had made is
/// handed out to be deleted, no encoder is launched, and whatever the
/// driver answers, the request ends with that error and the supervisor
/// idle.
pub proof fn lemma_port_exhaustion_is_rolled_back<P>(
    state: TranscodeStateView<P>,
    answer: TranscodeEventView<P>,
)
    requires
        state.wf(),
        state.stage == TranscodeStage::AllocatingPort,
        is_answer(answer),
    ensures
        ({
            let undone = next(state, TranscodeEventView::NoPort);
            let ended = next(undone.state, answer);
            &&& state.dir == Some(state.request->0.dir)
            &&& undone.action == TranscodeActionView::<P>::RemoveDir(state.request->0.dir)
            &&& undone.state.holds_nothing()
            &&& ended.action == TranscodeActionView::<P>::Finish(
                TranscodeOutcomeView::Failed(TranscodeErrorView::NoPortAvailable),
            )
            &&& ended.state == idle::<P>()
        }),
{
}

/// An encoder that cannot be launched is a failed start that leaves no
/// working directory behind: the directory is handed out to be deleted,
/// and whatever the driver answers, the request ends with `EncoderSpawn`
/// and the supervisor idle.
pub proof fn lemma_spawn_failure_is_rolled_back<P>(
    state: TranscodeStateView<P>,
    cause: Seq<char>,
    answer: TranscodeEventView<P>,
)
    requires
        state.wf(),
        state.stage is Spawning,
        is_answer(answer),
    ensures
        ({
            let undone = next(state, TranscodeEventView::Failed(cause));
            let ended = next(undone.state, answer);
            &&& undone.action == TranscodeActionView::<P>::RemoveDir(state.request->0.dir)
            &&& undone.state.holds_nothing()
            &&& ended.action == TranscodeActionView::<P>::Finish(
                TranscodeOutcomeView::Failed(
                    TranscodeErrorView::EncoderSpawn(spawn_failure(cause)),
                ),
            )
            &&& ended.state == idle::<P>()
        }),
{
}

/// A start replaces the session that runs. The old encoder is killed
/// first, then the old directory is deleted, each whatever the answer to
/// the step before; then the new directory is made, a port is found, the
/// new encoder is launched on the new source, the stream is served and the
/// grace is waited out. The request ends with the address of the new
/// stream, and the supervisor holds the new encoder, the new port and the
/// new directory, and nothing of the old session.
pub proof fn lemma_start_supersedes_session<P>(
    state: TranscodeStateView<P>,
    source: Seq<char>,
    temp_root: Seq<char>,
    killed: TranscodeEventView<P>,
    removed: TranscodeEventView<P>,
    port: u16,
    process: P,
    served: TranscodeEventView<P>,
)
    requires
        state.wf(),
        state.phase() == Phase::Running,
        is_answer(killed),
        is_answer(removed),
        is_answer(served),
    ensures
        ({
            let dir = work_dir_under(temp_root);
            let s1 = start(state, source, temp_root);
            let s2 = next(s1.state, killed);
            let s3 = next(s2.state, removed);
            let s4 = next(s3.state, TranscodeEventView::Done);
            let s5 = next(s4.state, TranscodeEventView::Port(port));
            let s6 = next(s5.state, TranscodeEventView::Spawned(process));
            let s7 = next(s6.state, served);
            let s8 = next(s7.state, TranscodeEventView::Done);
            &&& s1.action == TranscodeActionView::Kill(state.process->0)
            &&& s2.action == TranscodeActionView::<P>::RemoveDir(state.dir->0)
            &&& s3.action == TranscodeActionView::<P>::CreateDir(dir)
            &&& s3.state.holds_nothing()
            &&& s4.action == TranscodeActionView::<P>::AllocatePort
            &&& s5.action == TranscodeActionView::<P>::Spawn(encoder_args(source, dir))
            &&& s6.action == TranscodeActionView::<P>::Serve { port, dir }
            &&& s7.action == TranscodeActionView::<P>::Wait(STARTUP_GRACE_MS)
            &&& s8.action == TranscodeActionView::<P>::Finish(
                TranscodeOutcomeView::Started(stream_url(port)),
            )
            &&& s8.state.phase() == Phase::Running
            &&& s8.state.process == Some(process)
            &&& s8.state.port == Some(port)
            &&& s8.state.dir == Some(dir)
        }),
{
}

/// A start on an idle supervisor tears nothing down: its first action is
/// to make the working directory.
pub proof fn lemma_start_when_idle_creates_dir<P>(
    state: TranscodeStateView<P>,
    source: Seq<char>,
    temp_root: Seq<char>,
)
    requires
        state.wf(),
        state.phase() == Phase::Idle,
    ensures
        start(state, source, temp_root).action == TranscodeActionView::<P>::CreateDir(
            work_dir_under(temp_root),
        ),
        start(state, source, temp_root).state.phase() == Phase::Starting,
        start(state, source, temp_root).state.holds_nothing(),
{
}

} // verus!
