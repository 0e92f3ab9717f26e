use gdrive_sync::download::DownloadConfig;
use gdrive_sync::errors::{CancelCause, DownloadError, ErrorKind};
use gdrive_sync::launcher::{job_id_from_reply, LaunchReply};
use gdrive_sync::orchestrator::{
    after_launch, after_status, begin_download, begin_download_at, fail, replay_download,
    start_download, start_download_at,
    step_for, Step, SUCCESS_MESSAGE,
};
use gdrive_sync::poller::{
    classify_reply, poll_all, poll_step, JobStatus, PollState, StatusReply, POLL_INTERVAL_SECS,
};

fn status(finished: bool, error: &str) -> StatusReply {
    StatusReply::Status(JobStatus { finished, error: error.to_string() })
}

fn config(destination: &str, create_backup: bool) -> DownloadConfig {
    DownloadConfig::new(
        "https://drive.google.com/drive/folders/ABC123?usp=sharing".to_string(),
        destination.to_string(),
        Some("gdrive".to_string()),
        false,
        None,
        create_backup,
    )
    .unwrap()
}

#[test]
fn launch_reply_with_job_id() {
    assert_eq!(job_id_from_reply(&LaunchReply::Accepted(Some(42))), Ok(42));
    assert_eq!(job_id_from_reply(&LaunchReply::Accepted(Some(-7))), Ok(-7));
}

#[test]
fn launch_reply_without_job_id() {
    let e = job_id_from_reply(&LaunchReply::Accepted(None)).unwrap_err();
    assert_eq!(e, DownloadError::MissingJobId);
    assert_eq!(e.kind(), ErrorKind::Protocol);
    assert_eq!(e.message(), "No jobid returned");
}

#[test]
fn launch_reply_refused_by_the_daemon() {
    let e = job_id_from_reply(&LaunchReply::HttpFailure("bad remote".to_string())).unwrap_err();
    assert_eq!(e, DownloadError::LaunchRejected("bad remote".to_string()));
    assert_eq!(e.kind(), ErrorKind::Network);
    assert_eq!(e.message(), "Sync start failed: bad remote");
}

#[test]
fn launch_reply_not_sent() {
    let e = job_id_from_reply(&LaunchReply::TransportFailure("timed out".to_string())).unwrap_err();
    assert_eq!(e, DownloadError::LaunchTransport("timed out".to_string()));
    assert_eq!(e.kind(), ErrorKind::Network);
    assert_eq!(e.message(), "Sync start failed: timed out");
}

#[test]
fn launch_reply_unreadable() {
    let e = job_id_from_reply(&LaunchReply::Unparsable("eof".to_string())).unwrap_err();
    assert_eq!(e, DownloadError::LaunchUnparsable("eof".to_string()));
    assert_eq!(e.kind(), ErrorKind::Protocol);
    assert_eq!(e.message(), "Failed to parse sync response: eof");
}

#[test]
fn finished_without_error_succeeds() {
    let s = poll_step(PollState::new(), &status(true, ""));
    assert_eq!(s, PollState::Succeeded);
    assert!(s.is_terminal());
    assert_eq!(s.into_outcome(), Some(Ok(())));
}

#[test]
fn finished_with_error_fails_with_the_daemons_words() {
    let s = poll_step(PollState::Running, &status(true, "x"));
    assert_eq!(s, PollState::Failed(DownloadError::JobFailed("x".to_string())));
    let e = s.into_outcome().unwrap().unwrap_err();
    assert_eq!(e.kind(), ErrorKind::Job);
    assert_eq!(e.message(), "Job failed: x");
    assert!(e.message().contains("x"));
}

#[test]
fn unfinished_keeps_running() {
    let s = poll_step(PollState::Running, &status(false, ""));
    assert_eq!(s, PollState::Running);
    assert!(!s.is_terminal());
    assert_eq!(s.into_outcome(), None);
    assert_eq!(poll_step(PollState::Running, &status(false, "not yet an error")), PollState::Running);
}

#[test]
fn connection_refused_is_a_cancellation() {
    let reply = StatusReply::TransportFailure("tcp connect error: connection refused".to_string());
    let s = classify_reply(&reply);
    assert_eq!(s, PollState::Cancelled(CancelCause::ServerStopped));
    let e = s.into_outcome().unwrap().unwrap_err();
    assert_eq!(e.kind(), ErrorKind::Cancelled);
    assert_ne!(e.kind(), ErrorKind::Network);
    assert_eq!(e.message(), "Download cancelled (server stopped)");
}

#[test]
fn send_failure_is_a_cancellation() {
    let reply = StatusReply::TransportFailure(
        "error sending request for url (http://localhost:5572/job/status)".to_string(),
    );
    assert_eq!(classify_reply(&reply), PollState::Cancelled(CancelCause::ServerStopped));
}

#[test]
fn other_transport_failure_is_a_network_failure() {
    let reply = StatusReply::TransportFailure("operation timed out".to_string());
    let s = classify_reply(&reply);
    assert_eq!(s, PollState::Failed(DownloadError::StatusTransport("operation timed out".to_string())));
    let e = s.into_outcome().unwrap().unwrap_err();
    assert_eq!(e.kind(), ErrorKind::Network);
    assert_eq!(e.message(), "Failed to check job status: operation timed out");
}

#[test]
fn unknown_job_is_a_cancellation() {
    let reply = StatusReply::HttpFailure("{\"error\": \"job not found\"}".to_string());
    let s = classify_reply(&reply);
    assert_eq!(s, PollState::Cancelled(CancelCause::JobUnknown));
    let e = s.into_outcome().unwrap().unwrap_err();
    assert_eq!(e.kind(), ErrorKind::Cancelled);
    assert_eq!(e.message(), "Download cancelled");
}

#[test]
fn other_refusal_is_a_network_failure() {
    let reply = StatusReply::HttpFailure("internal error".to_string());
    let s = classify_reply(&reply);
    assert_eq!(s, PollState::Failed(DownloadError::StatusRejected("internal error".to_string())));
    let e = s.into_outcome().unwrap().unwrap_err();
    assert_eq!(e.kind(), ErrorKind::Network);
    assert_eq!(e.message(), "Job status check failed: internal error");
    assert_eq!(
        classify_reply(&StatusReply::HttpFailure(String::new())),
        PollState::Failed(DownloadError::StatusRejected(String::new()))
    );
}

#[test]
fn unreadable_status_is_a_protocol_failure() {
    let s = classify_reply(&StatusReply::Unparsable("missing field".to_string()));
    assert_eq!(s, PollState::Failed(DownloadError::StatusUnparsable("missing field".to_string())));
    let e = s.into_outcome().unwrap().unwrap_err();
    assert_eq!(e.kind(), ErrorKind::Protocol);
    assert_eq!(e.message(), "Failed to parse job status: missing field");
}

#[test]
fn terminal_states_stay() {
    let replies = [
        status(false, ""),
        status(true, ""),
        status(true, "late"),
        StatusReply::TransportFailure("connection refused".to_string()),
        StatusReply::HttpFailure("job not found".to_string()),
        StatusReply::Unparsable("x".to_string()),
    ];
    let terminals = [
        PollState::Succeeded,
        PollState::Failed(DownloadError::JobFailed("first".to_string())),
        PollState::Cancelled(CancelCause::JobUnknown),
    ];
    for t in terminals.iter() {
        for r in replies.iter() {
            assert_eq!(&poll_step(t.clone(), r), t);
        }
    }
}

#[test]
fn poll_all_stops_at_the_first_terminal_state() {
    assert_eq!(poll_all(&vec![]), PollState::Running);
    assert_eq!(poll_all(&vec![status(false, ""), status(false, "")]), PollState::Running);
    assert_eq!(
        poll_all(&vec![status(false, ""), status(true, ""), status(true, "late")]),
        PollState::Succeeded
    );
    assert_eq!(
        poll_all(&vec![
            status(false, ""),
            status(true, "disk full"),
            StatusReply::HttpFailure("job not found".to_string()),
        ]),
        PollState::Failed(DownloadError::JobFailed("disk full".to_string()))
    );
}

#[test]
fn poll_interval_is_one_second() {
    assert_eq!(POLL_INTERVAL_SECS, 1);
}

#[test]
fn download_starts_with_the_launch() {
    let c = config("/music", true);
    match start_download_at(&c, "20240131_235959") {
        Step::Launch(request) => {
            assert!(request.is_async);
            assert_eq!(request.src_fs, "gdrive,root_folder_id=ABC123:");
            assert_eq!(request.dst_fs, "/music");
            assert_eq!(request.config.unwrap().backup_dir, "/Backup-KAR-20240131_235959");
            assert_eq!(request.filter, None);
        }
        other => panic!("unexpected step {:?}", other),
    }
    assert!(matches!(start_download(&c), Step::Launch(_)));
}

#[test]
fn download_ends_at_once_where_no_backup_path_exists() {
    let c = config("/", true);
    let expected = Step::Finish(Err("Cannot get parent directory of destination".to_string()));
    assert_eq!(start_download_at(&c, "20240131_235959"), expected);
    assert_eq!(start_download(&c), expected);
}

#[test]
fn after_launch_the_first_query_comes_without_a_wait() {
    assert_eq!(
        after_launch(&LaunchReply::Accepted(Some(9))),
        Step::Query { jobid: 9, wait_secs: 0 }
    );
    assert_eq!(
        after_launch(&LaunchReply::Accepted(None)),
        Step::Finish(Err("No jobid returned".to_string()))
    );
    assert_eq!(
        after_launch(&LaunchReply::HttpFailure("nope".to_string())),
        Step::Finish(Err("Sync start failed: nope".to_string()))
    );
}

#[test]
fn after_status_waits_or_finishes() {
    assert_eq!(after_status(9, &status(false, "")), Step::Query { jobid: 9, wait_secs: 1 });
    assert_eq!(
        after_status(9, &status(true, "")),
        Step::Finish(Ok("Download completed successfully".to_string()))
    );
    assert_eq!(
        after_status(9, &status(true, "quota exceeded")),
        Step::Finish(Err("Job failed: quota exceeded".to_string()))
    );
    assert_eq!(
        after_status(9, &StatusReply::TransportFailure("connection refused".to_string())),
        Step::Finish(Err("Download cancelled (server stopped)".to_string()))
    );
    assert_eq!(
        after_status(9, &StatusReply::HttpFailure("job not found".to_string())),
        Step::Finish(Err("Download cancelled".to_string()))
    );
}

#[test]
fn step_for_each_state() {
    assert_eq!(step_for(3, PollState::Running), Step::Query { jobid: 3, wait_secs: 1 });
    assert_eq!(step_for(3, PollState::Succeeded), Step::Finish(Ok(SUCCESS_MESSAGE.to_string())));
    assert_eq!(
        step_for(3, PollState::Cancelled(CancelCause::ServerStopped)),
        Step::Finish(Err("Download cancelled (server stopped)".to_string()))
    );
    assert_eq!(
        fail(&DownloadError::MissingRemoteConfig),
        Step::Finish(Err("Remote configuration is required. Please authorize first.".to_string()))
    );
}

#[test]
fn replay_of_a_download_that_goes_well() {
    let c = config("/music", false);
    let r = replay_download(
        &c,
        "20240131_235959",
        &LaunchReply::Accepted(Some(1)),
        &vec![status(false, ""), status(false, ""), status(true, "")],
    );
    assert_eq!(r, Some(Ok("Download completed successfully".to_string())));
}

#[test]
fn replay_of_downloads_that_fail() {
    let ok_launch = LaunchReply::Accepted(Some(1));
    let done = vec![status(true, "")];
    assert_eq!(
        replay_download(&config("/", true), "T", &ok_launch, &done),
        Some(Err("Cannot get parent directory of destination".to_string()))
    );
    assert_eq!(
        replay_download(&config("/music", true), "T", &LaunchReply::Accepted(None), &done),
        Some(Err("No jobid returned".to_string()))
    );
    assert_eq!(
        replay_download(
            &config("/music", true),
            "T",
            &ok_launch,
            &vec![status(false, ""), StatusReply::TransportFailure("connection refused".to_string())]
        ),
        Some(Err("Download cancelled (server stopped)".to_string()))
    );
    assert_eq!(
        replay_download(&config("/music", true), "T", &ok_launch, &vec![status(false, "")]),
        None
    );
}

#[test]
fn download_without_remote_ends_at_once() {
    let expected =
        Step::Finish(Err("Remote configuration is required. Please authorize first.".to_string()));
    assert_eq!(
        begin_download("id".to_string(), "/music".to_string(), None, true, None, true),
        expected
    );
    assert_eq!(
        begin_download_at("id".to_string(), "/".to_string(), Some(String::new()), false, None, true, "T"),
        expected
    );
}

#[test]
fn download_with_remote_begins_with_the_launch() {
    let step = begin_download_at(
        "https://drive.google.com/drive/folders/ABC123?usp=sharing".to_string(),
        "/music".to_string(),
        Some("gdrive".to_string()),
        true,
        Some(vec!["songs/a.mp3".to_string()]),
        true,
        "20240131_235959",
    );
    match step {
        Step::Launch(request) => {
            assert!(request.src_fs.ends_with("root_folder_id=ABC123:"));
            assert_eq!(request.dst_fs, "/music/Unofficial-Neuro-Karaoke-Archive");
            assert_eq!(request.config.unwrap().backup_dir, "/music/Backup-KAR-20240131_235959");
            assert_eq!(
                request.filter.unwrap().include_rule,
                vec!["/songs/a.mp3".to_string(), "/songs/a.mp3/**".to_string()]
            );
        }
        other => panic!("unexpected step {:?}", other),
    }
    assert!(matches!(
        begin_download("id".to_string(), "/music".to_string(), Some("r".to_string()), false, None, false),
        Step::Launch(_)
    ));
}
