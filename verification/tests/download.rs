use watchtv::download::{
    download_video, progress_fraction, throughput, Clock, DownloadAction, DownloadError,
    DownloadEvent, DownloadStage, DownloadTask, HttpRequest,
};
use watchtv::registry::DownloadState;
use watchtv::types::{DownloadProgress, DownloadStatus, DownloadedItem, Fraction};

fn at(monotonic_ms: u64) -> Clock {
    Clock { monotonic_ms, unix_secs: 1_700_000_000 + monotonic_ms / 1000 }
}

fn home_joined(parts: &[&str]) -> String {
    let mut path = std::path::PathBuf::from("home_of_u");
    for part in parts {
        path.push(part);
    }
    path.to_string_lossy().into_owned()
}

fn started(state: &mut DownloadState, id: &str, url: &str, name: &str) -> DownloadTask {
    let (task, action) = DownloadTask::start(
        state,
        id.to_string(),
        url.to_string(),
        name.to_string(),
        None,
        Some("home_of_u".to_string()),
    );
    assert_eq!(action, DownloadAction::PrepareDir(home_joined(&["Movies", "WatchTV"])));
    task
}

fn streaming(state: &mut DownloadState, id: &str, total: Option<u64>) -> DownloadTask {
    let mut task = started(state, id, "http://x/video.mkv", "Video");
    assert!(matches!(task.step(state, DownloadEvent::Done, at(0)), DownloadAction::Request(_)));
    let created = task.step(
        state,
        DownloadEvent::Response { status: 200, content_length: total },
        at(0),
    );
    assert!(matches!(created, DownloadAction::CreateFile(_)));
    assert_eq!(task.step(state, DownloadEvent::Done, at(1000)), DownloadAction::AwaitChunk(None));
    task
}

fn write_chunk(task: &mut DownloadTask, state: &mut DownloadState, len: u64, now: u64) -> DownloadAction {
    assert_eq!(task.step(state, DownloadEvent::Chunk(len), at(now)), DownloadAction::WriteChunk);
    task.step(state, DownloadEvent::Done, at(now))
}

#[test]
fn start_registers_and_prepares_the_directory() {
    let mut state = DownloadState::new();
    let task = started(&mut state, "job-1", "http://x/video.mkv?token=1", "Show: Pilot #1");
    assert!(state.is_active("job-1"));
    assert!(!state.is_cancelled("job-1"));
    assert_eq!(task.id(), "job-1");
    assert_eq!(task.path(), home_joined(&["Movies", "WatchTV", "Show_ Pilot _1.mkv"]));
    assert_eq!(task.stage(), DownloadStage::PreparingDir);
    assert_eq!(task.downloaded_bytes(), 0);
    assert_eq!(task.total_bytes(), None);
    assert!(!task.is_finished());
}

#[test]
fn start_without_home_fails_and_cleans_up() {
    let mut state = DownloadState::new();
    let (task, action) = DownloadTask::start(
        &mut state,
        "job-1".to_string(),
        "http://x/video.mkv".to_string(),
        "Video".to_string(),
        None,
        None,
    );
    assert_eq!(
        action,
        DownloadAction::Finish {
            report: DownloadProgress {
                id: "job-1".to_string(),
                progress: Fraction { part: 0, whole: 1 },
                status: DownloadStatus::Error,
                downloaded_bytes: 0,
                total_bytes: None,
                speed: None,
            },
            outcome: Err(DownloadError::FileSystem("Could not find home directory".to_string())),
        }
    );
    assert!(task.is_finished());
    assert!(!state.is_active("job-1"));
}

#[test]
fn download_video_uses_the_home_directory() {
    let mut state = DownloadState::new();
    let (task, action) = download_video(
        &mut state,
        "job-1".to_string(),
        "http://x/video.mkv".to_string(),
        "Video".to_string(),
        Some("thumb.png".to_string()),
    );
    assert_eq!(task.id(), "job-1");
    match dirs::home_dir() {
        Some(home) => {
            let dir = home.join("Movies").join("WatchTV");
            assert_eq!(action, DownloadAction::PrepareDir(dir.to_string_lossy().into_owned()));
            assert_eq!(task.path(), dir.join("Video.mkv").to_string_lossy());
            assert!(state.is_active("job-1"));
        }
        None => {
            assert!(matches!(action, DownloadAction::Finish { outcome: Err(_), .. }));
            assert!(!state.is_active("job-1"));
        }
    }
}

#[test]
fn request_has_long_timeout_and_client_header() {
    let mut state = DownloadState::new();
    let mut task = started(&mut state, "job-1", "http://x/video.mkv", "Video");
    assert_eq!(
        task.step(&mut state, DownloadEvent::Done, at(0)),
        DownloadAction::Request(HttpRequest {
            url: "http://x/video.mkv".to_string(),
            timeout_secs: 3600,
            user_agent: "WatchTV/1.0".to_string(),
        })
    );
    assert_eq!(task.stage(), DownloadStage::Requesting);
}

#[test]
fn directory_failure_is_a_file_system_error() {
    let mut state = DownloadState::new();
    let mut task = started(&mut state, "job-1", "http://x/video.mkv", "Video");
    let action = task.step(&mut state, DownloadEvent::Failed("denied".to_string()), at(0));
    match action {
        DownloadAction::Finish { report, outcome } => {
            assert_eq!(report.status, DownloadStatus::Error);
            assert_eq!(
                outcome,
                Err(DownloadError::FileSystem(
                    "Failed to create downloads directory: denied".to_string()
                ))
            );
        }
        other => panic!("unexpected action: {:?}", other),
    }
    assert!(!state.is_active("job-1"));
}

#[test]
fn failed_request_is_a_network_error() {
    let mut state = DownloadState::new();
    let mut task = started(&mut state, "job-1", "http://x/video.mkv", "Video");
    task.step(&mut state, DownloadEvent::Done, at(0));
    let action = task.step(&mut state, DownloadEvent::Failed("timed out".to_string()), at(5));
    match action {
        DownloadAction::Finish { report, outcome } => {
            assert_eq!(report.status, DownloadStatus::Error);
            let error = outcome.unwrap_err();
            assert_eq!(
                error,
                DownloadError::Network("Failed to start download: timed out".to_string())
            );
            assert_eq!(error.message(), "Failed to start download: timed out");
            assert_eq!(error.status(), DownloadStatus::Error);
        }
        other => panic!("unexpected action: {:?}", other),
    }
    assert!(!state.is_active("job-1"));
    assert!(task.is_finished());
}

#[test]
fn unsuccessful_status_is_a_fetch_error_and_no_file_is_made() {
    let mut state = DownloadState::new();
    let mut task = started(&mut state, "job-1", "http://x/video.mkv", "Video");
    task.step(&mut state, DownloadEvent::Done, at(0));
    let action = task.step(
        &mut state,
        DownloadEvent::Response { status: 404, content_length: Some(10) },
        at(5),
    );
    match action {
        DownloadAction::Finish { report, outcome } => {
            assert_eq!(report.status, DownloadStatus::Error);
            assert_eq!(report.downloaded_bytes, 0);
            let error = outcome.unwrap_err();
            assert_eq!(error, DownloadError::Fetch { status: 404 });
            assert_eq!(error.message(), "HTTP error: 404");
        }
        other => panic!("unexpected action: {:?}", other),
    }
    assert!(!state.is_active("job-1"));
}

#[test]
fn success_statuses_are_two_hundred_to_two_ninety_nine() {
    for (status, ok) in [(199u16, false), (200, true), (206, true), (299, true), (300, false), (500, false)] {
        let mut state = DownloadState::new();
        let mut task = started(&mut state, "job-1", "http://x/video.mkv", "Video");
        task.step(&mut state, DownloadEvent::Done, at(0));
        let action = task.step(
            &mut state,
            DownloadEvent::Response { status, content_length: None },
            at(0),
        );
        assert_eq!(matches!(action, DownloadAction::CreateFile(_)), ok);
        assert_eq!(state.is_active("job-1"), ok);
    }
}

#[test]
fn file_creation_failure_is_a_file_system_error() {
    let mut state = DownloadState::new();
    let mut task = started(&mut state, "job-1", "http://x/video.mkv", "Video");
    task.step(&mut state, DownloadEvent::Done, at(0));
    let created = task.step(
        &mut state,
        DownloadEvent::Response { status: 200, content_length: None },
        at(0),
    );
    assert_eq!(created, DownloadAction::CreateFile(home_joined(&["Movies", "WatchTV", "Video.mkv"])));
    let action = task.step(&mut state, DownloadEvent::Failed("disk full".to_string()), at(0));
    assert!(matches!(
        action,
        DownloadAction::Finish { outcome: Err(DownloadError::FileSystem(ref m)), .. }
            if m == "Failed to create file: disk full"
    ));
    assert!(!state.is_active("job-1"));
}

#[test]
fn completed_download_reports_every_byte() {
    let mut state = DownloadState::new();
    let mut task = streaming(&mut state, "job-1", Some(300));
    assert_eq!(write_chunk(&mut task, &mut state, 100, 1100), DownloadAction::AwaitChunk(None));
    assert_eq!(write_chunk(&mut task, &mut state, 150, 1200), DownloadAction::AwaitChunk(None));
    assert_eq!(write_chunk(&mut task, &mut state, 50, 1300), DownloadAction::AwaitChunk(None));
    assert_eq!(task.downloaded_bytes(), 300);
    assert_eq!(task.step(&mut state, DownloadEvent::EndOfStream, at(1400)), DownloadAction::Flush);
    assert!(state.is_active("job-1"));
    let action = task.step(&mut state, DownloadEvent::Done, at(2500));
    assert_eq!(
        action,
        DownloadAction::Finish {
            report: DownloadProgress {
                id: "job-1".to_string(),
                progress: Fraction { part: 1, whole: 1 },
                status: DownloadStatus::Completed,
                downloaded_bytes: 300,
                total_bytes: Some(300),
                speed: None,
            },
            outcome: Ok(DownloadedItem {
                id: "job-1".to_string(),
                name: "Video".to_string(),
                local_path: home_joined(&["Movies", "WatchTV", "Video.mkv"]),
                original_url: "http://x/video.mkv".to_string(),
                thumbnail: None,
                downloaded_at: 1_700_000_002,
                size: Some(300),
            }),
        }
    );
    assert!(task.is_finished());
    assert!(!state.is_active("job-1"));
}

#[test]
fn completed_download_of_unknown_size_reports_what_was_written() {
    let mut state = DownloadState::new();
    let mut task = streaming(&mut state, "job-1", None);
    write_chunk(&mut task, &mut state, 7, 1001);
    task.step(&mut state, DownloadEvent::EndOfStream, at(1002));
    match task.step(&mut state, DownloadEvent::Done, at(1003)) {
        DownloadAction::Finish { report, outcome } => {
            assert_eq!(report.downloaded_bytes, 7);
            assert_eq!(report.total_bytes, Some(7));
            assert_eq!(report.progress, Fraction { part: 1, whole: 1 });
            assert_eq!(outcome.unwrap().size, Some(7));
        }
        other => panic!("unexpected action: {:?}", other),
    }
}

#[test]
fn empty_download_completes_with_progress_one() {
    let mut state = DownloadState::new();
    let mut task = streaming(&mut state, "job-1", Some(0));
    task.step(&mut state, DownloadEvent::EndOfStream, at(1002));
    match task.step(&mut state, DownloadEvent::Done, at(1003)) {
        DownloadAction::Finish { report, outcome } => {
            assert_eq!(report.status, DownloadStatus::Completed);
            assert_eq!(report.downloaded_bytes, 0);
            assert_eq!(report.progress, Fraction { part: 1, whole: 1 });
            assert_eq!(outcome.unwrap().size, Some(0));
        }
        other => panic!("unexpected action: {:?}", other),
    }
}

#[test]
fn progress_is_reported_once_the_interval_has_passed() {
    let mut state = DownloadState::new();
    let mut task = streaming(&mut state, "job-1", Some(4000));
    assert_eq!(write_chunk(&mut task, &mut state, 1000, 1499), DownloadAction::AwaitChunk(None));
    assert_eq!(
        write_chunk(&mut task, &mut state, 1000, 1500),
        DownloadAction::AwaitChunk(Some(DownloadProgress {
            id: "job-1".to_string(),
            progress: Fraction { part: 2000, whole: 4000 },
            status: DownloadStatus::Downloading,
            downloaded_bytes: 2000,
            total_bytes: Some(4000),
            speed: Some(4000),
        }))
    );
    assert_eq!(write_chunk(&mut task, &mut state, 500, 1999), DownloadAction::AwaitChunk(None));
    match write_chunk(&mut task, &mut state, 500, 2000) {
        DownloadAction::AwaitChunk(Some(report)) => {
            assert_eq!(report.downloaded_bytes, 3000);
            assert_eq!(report.speed, Some(3000));
            assert_eq!(report.progress, Fraction { part: 3000, whole: 4000 });
        }
        other => panic!("unexpected action: {:?}", other),
    }
}

#[test]
fn progress_is_zero_while_the_total_is_unknown() {
    let mut state = DownloadState::new();
    let mut task = streaming(&mut state, "job-1", None);
    match write_chunk(&mut task, &mut state, 1000, 3000) {
        DownloadAction::AwaitChunk(Some(report)) => {
            assert_eq!(report.progress, Fraction { part: 0, whole: 1 });
            assert_eq!(report.total_bytes, None);
            assert_eq!(report.speed, Some(500));
        }
        other => panic!("unexpected action: {:?}", other),
    }
}

#[test]
fn reported_counts_never_fall() {
    let mut state = DownloadState::new();
    let mut task = streaming(&mut state, "job-1", None);
    let mut last = 0;
    let mut now = 1000;
    for len in [10u64, 0, 5, 1000, 1, 0, 77] {
        now += 600;
        match write_chunk(&mut task, &mut state, len, now) {
            DownloadAction::AwaitChunk(Some(report)) => {
                assert!(report.downloaded_bytes >= last);
                last = report.downloaded_bytes;
            }
            other => panic!("unexpected action: {:?}", other),
        }
    }
    assert_eq!(last, 1093);
}

#[test]
fn clock_that_runs_backwards_reports_nothing() {
    let mut state = DownloadState::new();
    let mut task = streaming(&mut state, "job-1", None);
    assert_eq!(write_chunk(&mut task, &mut state, 10, 0), DownloadAction::AwaitChunk(None));
}

#[test]
fn cancellation_before_the_first_chunk_writes_nothing() {
    let mut state = DownloadState::new();
    let mut task = streaming(&mut state, "job-1", Some(100));
    state.request_cancel("job-1");
    let action = task.step(&mut state, DownloadEvent::Chunk(100), at(1001));
    assert_eq!(
        action,
        DownloadAction::RemoveFile(home_joined(&["Movies", "WatchTV", "Video.mkv"]))
    );
    assert_eq!(task.downloaded_bytes(), 0);
    assert_eq!(task.stage(), DownloadStage::RemovingPartial);
    let ended = task.step(&mut state, DownloadEvent::Done, at(1002));
    assert_eq!(
        ended,
        DownloadAction::Finish {
            report: DownloadProgress {
                id: "job-1".to_string(),
                progress: Fraction { part: 0, whole: 100 },
                status: DownloadStatus::Cancelled,
                downloaded_bytes: 0,
                total_bytes: Some(100),
                speed: None,
            },
            outcome: Err(DownloadError::Cancelled),
        }
    );
    assert!(!state.is_active("job-1"));
    assert!(task.is_finished());
}

#[test]
fn cancellation_right_after_begin_is_seen_at_the_first_chunk() {
    let mut state = DownloadState::new();
    let (mut task, _) = DownloadTask::start(
        &mut state,
        "job-9".to_string(),
        "http://x/a.mp4".to_string(),
        "A".to_string(),
        None,
        Some("home_of_u".to_string()),
    );
    state.request_cancel("job-9");
    task.step(&mut state, DownloadEvent::Done, at(0));
    task.step(&mut state, DownloadEvent::Response { status: 200, content_length: None }, at(0));
    task.step(&mut state, DownloadEvent::Done, at(0));
    assert!(matches!(
        task.step(&mut state, DownloadEvent::Chunk(1), at(1)),
        DownloadAction::RemoveFile(_)
    ));
    assert_eq!(task.downloaded_bytes(), 0);
}

#[test]
fn cancellation_midway_keeps_the_count_and_removes_the_file() {
    let mut state = DownloadState::new();
    let mut task = streaming(&mut state, "job-1", Some(100));
    write_chunk(&mut task, &mut state, 40, 1001);
    state.request_cancel("job-1");
    assert!(matches!(
        task.step(&mut state, DownloadEvent::Chunk(60), at(1002)),
        DownloadAction::RemoveFile(_)
    ));
    match task.step(&mut state, DownloadEvent::Failed("busy".to_string()), at(1003)) {
        DownloadAction::Finish { report, outcome } => {
            assert_eq!(report.status, DownloadStatus::Cancelled);
            assert_eq!(report.downloaded_bytes, 40);
            let error = outcome.unwrap_err();
            assert_eq!(error, DownloadError::Cancelled);
            assert_eq!(error.message(), "Download cancelled");
            assert_eq!(error.status(), DownloadStatus::Cancelled);
        }
        other => panic!("unexpected action: {:?}", other),
    }
    assert!(!state.is_active("job-1"));
}

#[test]
fn cancellation_is_checked_before_a_stream_error() {
    let mut state = DownloadState::new();
    let mut task = streaming(&mut state, "job-1", None);
    state.request_cancel("job-1");
    assert!(matches!(
        task.step(&mut state, DownloadEvent::Failed("reset".to_string()), at(1002)),
        DownloadAction::RemoveFile(_)
    ));
}

#[test]
fn cancellation_is_not_checked_at_the_end_of_the_stream() {
    let mut state = DownloadState::new();
    let mut task = streaming(&mut state, "job-1", None);
    state.request_cancel("job-1");
    assert_eq!(task.step(&mut state, DownloadEvent::EndOfStream, at(1002)), DownloadAction::Flush);
    assert!(matches!(
        task.step(&mut state, DownloadEvent::Done, at(1003)),
        DownloadAction::Finish { outcome: Ok(_), .. }
    ));
    assert!(!state.is_active("job-1"));
}

#[test]
fn stream_error_is_a_network_error() {
    let mut state = DownloadState::new();
    let mut task = streaming(&mut state, "job-1", Some(10));
    write_chunk(&mut task, &mut state, 4, 1001);
    match task.step(&mut state, DownloadEvent::Failed("reset".to_string()), at(1002)) {
        DownloadAction::Finish { report, outcome } => {
            assert_eq!(report.status, DownloadStatus::Error);
            assert_eq!(report.downloaded_bytes, 4);
            assert_eq!(report.progress, Fraction { part: 4, whole: 10 });
            assert_eq!(outcome, Err(DownloadError::Network("Download error: reset".to_string())));
        }
        other => panic!("unexpected action: {:?}", other),
    }
    assert!(!state.is_active("job-1"));
}

#[test]
fn write_error_is_a_file_system_error_and_the_chunk_does_not_count() {
    let mut state = DownloadState::new();
    let mut task = streaming(&mut state, "job-1", None);
    write_chunk(&mut task, &mut state, 4, 1001);
    assert_eq!(task.step(&mut state, DownloadEvent::Chunk(6), at(1002)), DownloadAction::WriteChunk);
    assert_eq!(task.stage(), DownloadStage::Writing(6));
    match task.step(&mut state, DownloadEvent::Failed("disk full".to_string()), at(1003)) {
        DownloadAction::Finish { report, outcome } => {
            assert_eq!(report.downloaded_bytes, 4);
            assert_eq!(
                outcome,
                Err(DownloadError::FileSystem("Write error: disk full".to_string()))
            );
        }
        other => panic!("unexpected action: {:?}", other),
    }
    assert!(!state.is_active("job-1"));
}

#[test]
fn flush_error_is_a_file_system_error() {
    let mut state = DownloadState::new();
    let mut task = streaming(&mut state, "job-1", None);
    task.step(&mut state, DownloadEvent::EndOfStream, at(1002));
    assert!(matches!(
        task.step(&mut state, DownloadEvent::Failed("io".to_string()), at(1003)),
        DownloadAction::Finish { outcome: Err(DownloadError::FileSystem(ref m)), .. }
            if m == "Flush error: io"
    ));
    assert!(!state.is_active("job-1"));
}

#[test]
fn events_that_answer_nothing_are_rejected() {
    let mut state = DownloadState::new();
    let mut task = started(&mut state, "job-1", "http://x/video.mkv", "Video");
    assert_eq!(
        task.step(&mut state, DownloadEvent::Chunk(5), at(0)),
        DownloadAction::Rejected(DownloadEvent::Chunk(5))
    );
    assert_eq!(task.stage(), DownloadStage::PreparingDir);
    assert!(state.is_active("job-1"));
    let mut task = streaming(&mut state, "job-2", None);
    assert_eq!(
        task.step(&mut state, DownloadEvent::Done, at(0)),
        DownloadAction::Rejected(DownloadEvent::Done)
    );
    assert_eq!(
        task.step(
            &mut state,
            DownloadEvent::Response { status: 200, content_length: None },
            at(0)
        ),
        DownloadAction::Rejected(DownloadEvent::Response { status: 200, content_length: None })
    );
}

#[test]
fn nothing_follows_the_last_report() {
    let mut state = DownloadState::new();
    let mut task = streaming(&mut state, "job-1", None);
    task.step(&mut state, DownloadEvent::EndOfStream, at(1002));
    task.step(&mut state, DownloadEvent::Done, at(1003));
    state.begin("job-1");
    for event in [
        DownloadEvent::Done,
        DownloadEvent::Failed("x".to_string()),
        DownloadEvent::Chunk(1),
        DownloadEvent::EndOfStream,
        DownloadEvent::Response { status: 200, content_length: None },
    ] {
        let answer = task.step(&mut state, event.clone(), at(2000));
        assert_eq!(answer, DownloadAction::Rejected(event));
    }
    assert!(state.is_active("job-1"));
}

#[test]
fn chunk_that_would_overflow_the_count_is_rejected() {
    let mut state = DownloadState::new();
    let mut task = streaming(&mut state, "job-1", None);
    write_chunk(&mut task, &mut state, u64::MAX - 1, 1001);
    assert_eq!(
        task.step(&mut state, DownloadEvent::Chunk(2), at(1002)),
        DownloadAction::Rejected(DownloadEvent::Chunk(2))
    );
    assert_eq!(task.stage(), DownloadStage::AwaitingChunk);
    assert_eq!(write_chunk(&mut task, &mut state, 1, 1003), DownloadAction::AwaitChunk(None));
    assert_eq!(task.downloaded_bytes(), u64::MAX);
}

#[test]
fn concurrent_downloads_do_not_disturb_each_other() {
    let mut state = DownloadState::new();
    let mut first = streaming(&mut state, "first", Some(6));
    let mut second = streaming(&mut state, "second", Some(8));
    write_chunk(&mut first, &mut state, 3, 1001);
    write_chunk(&mut second, &mut state, 4, 1002);
    state.request_cancel("second");
    assert_eq!(write_chunk(&mut first, &mut state, 3, 1003), DownloadAction::AwaitChunk(None));
    assert!(matches!(
        second.step(&mut state, DownloadEvent::Chunk(4), at(1004)),
        DownloadAction::RemoveFile(_)
    ));
    match second.step(&mut state, DownloadEvent::Done, at(1005)) {
        DownloadAction::Finish { report, outcome } => {
            assert_eq!(report.id, "second");
            assert_eq!(report.status, DownloadStatus::Cancelled);
            assert_eq!(outcome, Err(DownloadError::Cancelled));
        }
        other => panic!("unexpected action: {:?}", other),
    }
    assert!(state.is_active("first"));
    assert!(!state.is_active("second"));
    first.step(&mut state, DownloadEvent::EndOfStream, at(1006));
    match first.step(&mut state, DownloadEvent::Done, at(1007)) {
        DownloadAction::Finish { report, outcome } => {
            assert_eq!(report.id, "first");
            assert_eq!(report.status, DownloadStatus::Completed);
            assert_eq!(report.downloaded_bytes, 6);
            assert_eq!(outcome.unwrap().size, Some(6));
        }
        other => panic!("unexpected action: {:?}", other),
    }
    assert!(!state.is_active("first"));
    assert!(!state.is_active("second"));
    assert_eq!(state.active_count(), 0);
}

#[test]
fn thumbnail_is_handed_on() {
    let mut state = DownloadState::new();
    let (mut task, _) = DownloadTask::start(
        &mut state,
        "job-1".to_string(),
        "http://x/a.mp4".to_string(),
        "A".to_string(),
        Some("http://x/a.png".to_string()),
        Some("home_of_u".to_string()),
    );
    task.step(&mut state, DownloadEvent::Done, at(0));
    task.step(&mut state, DownloadEvent::Response { status: 200, content_length: None }, at(0));
    task.step(&mut state, DownloadEvent::Done, at(0));
    task.step(&mut state, DownloadEvent::EndOfStream, at(0));
    match task.step(&mut state, DownloadEvent::Done, at(0)) {
        DownloadAction::Finish { outcome: Ok(item), .. } => {
            assert_eq!(item.thumbnail, Some("http://x/a.png".to_string()));
            assert_eq!(item.downloaded_at, 1_700_000_000);
        }
        other => panic!("unexpected action: {:?}", other),
    }
}

#[test]
fn progress_fraction_values() {
    assert_eq!(progress_fraction(0, None), Fraction { part: 0, whole: 1 });
    assert_eq!(progress_fraction(500, None), Fraction { part: 0, whole: 1 });
    assert_eq!(progress_fraction(0, Some(10)), Fraction { part: 0, whole: 10 });
    assert_eq!(progress_fraction(3, Some(10)), Fraction { part: 3, whole: 10 });
    assert_eq!(progress_fraction(10, Some(10)), Fraction { part: 1, whole: 1 });
    assert_eq!(progress_fraction(11, Some(10)), Fraction { part: 1, whole: 1 });
    assert_eq!(progress_fraction(0, Some(0)), Fraction { part: 1, whole: 1 });
}

#[test]
fn throughput_values() {
    assert_eq!(throughput(1000, 0), 0);
    assert_eq!(throughput(0, 1000), 0);
    assert_eq!(throughput(1000, 1000), 1000);
    assert_eq!(throughput(1000, 500), 2000);
    assert_eq!(throughput(1, 3), 333);
    assert_eq!(throughput(2, 3000), 0);
    assert_eq!(throughput(u64::MAX, 1000), u64::MAX);
    assert_eq!(throughput(u64::MAX, 1), u64::MAX);
    assert_eq!(throughput(u64::MAX, 2000), u64::MAX / 2);
}

#[test]
fn fetch_error_message_names_the_status() {
    assert_eq!(DownloadError::Fetch { status: 503 }.message(), "HTTP error: 503");
    assert_eq!(DownloadError::Fetch { status: 503 }.status(), DownloadStatus::Error);
    assert_eq!(DownloadError::FileSystem("x".to_string()).message(), "x");
    assert_eq!(DownloadError::FileSystem("x".to_string()).status(), DownloadStatus::Error);
    assert_eq!(DownloadError::Network("y".to_string()).status(), DownloadStatus::Error);
}
