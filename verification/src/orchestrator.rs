//! One download from start to end, as a sequence of steps. The caller does what a
//! step asks for (posts the request, waits, asks for the job's status) and hands
//! the daemon's answer back; the functions here decide what comes next. Nothing is
//! tried twice: the first failure ends the download.

use vstd::prelude::*;
use crate::clock::{is_timestamp_text, lemma_timestamp_example};
use crate::download::{config_of, is_paths_result, option_text, option_texts, paths_of, request_of, DownloadConfig, DownloadConfigView, SyncRequest, SyncRequestView};
use crate::errors::{message_of, DownloadError, DownloadErrorView};
use crate::launcher::{job_id_from_reply, launch_result, LaunchReply, LaunchReplyView};
use crate::poller::{classify, classify_reply, outcome, poll_all, reply_views, run, PollState, PollStateView, StatusReply, StatusReplyView, POLL_INTERVAL_SECS};

verus! {

/// What a download that went well reports.
pub const SUCCESS_MESSAGE: &'static str = "Download completed successfully";

/// What the caller has to do next.
#[derive(Debug, PartialEq, Eq)]
pub enum Step {
    /// Post the request to the daemon's sync endpoint.
    Launch(SyncRequest),
    /// Wait for `wait_secs` seconds, then ask the daemon for the status of the job.
    Query { jobid: i64, wait_secs: u64 },
    /// Hand this result to the user: the success message or the words of the failure.
    Finish(Result<String, String>),
}

/// A `Step` with its texts as character sequences.
pub enum StepView {
    Launch(SyncRequestView),
    Query { jobid: i64, wait_secs: u64 },
    Finish(Result<Seq<char>, Seq<char>>),
}

impl View for Step {
    type V = StepView;

    open spec fn view(&self) -> StepView {
        match self {
            Step::Launch(request) => StepView::Launch(request@),
            Step::Query { jobid, wait_secs } => StepView::Query {
                jobid: *jobid,
                wait_secs: *wait_secs,
            },
            Step::Finish(Ok(text)) => StepView::Finish(Ok(text@)),
            Step::Finish(Err(text)) => StepView::Finish(Err(text@)),
        }
    }
}

/// The step that ends a download in the failure `e`.
pub open spec fn failed(e: DownloadErrorView) -> StepView {
    StepView::Finish(Err(message_of(e)))
}

/// The first step of a download that starts at the moment `timestamp`: the launch of
/// the composed request, or the end where no paths can be derived.
pub open spec fn first_step(config: DownloadConfigView, timestamp: Seq<char>) -> StepView {
    match paths_of(config, timestamp) {
        Ok(paths) => StepView::Launch(request_of(config, paths)),
        Err(e) => failed(e),
    }
}

/// The step after the daemon's answer to the sync request: the first status query,
/// without a wait, or the end where no job was started.
pub open spec fn step_after_launch(reply: LaunchReplyView) -> StepView {
    match launch_result(reply) {
        Ok(jobid) => StepView::Query { jobid, wait_secs: 0 },
        Err(e) => failed(e),
    }
}

/// The step that a poller's state asks for: the next query after the interval while
/// the job runs, else the end with the result that the state stands for.
pub open spec fn step_of_state(jobid: i64, state: PollStateView) -> StepView {
    match outcome(state) {
        None => StepView::Query { jobid, wait_secs: POLL_INTERVAL_SECS },
        Some(Ok(_)) => StepView::Finish(Ok(SUCCESS_MESSAGE@)),
        Some(Err(e)) => failed(e),
    }
}

/// The step after the daemon's answer to a status query.
pub open spec fn step_after_status(jobid: i64, reply: StatusReplyView) -> StepView {
    step_of_state(jobid, classify(reply))
}

/// Ends a download in the failure `e`.
pub fn fail(e: &DownloadError) -> (step: Step)
    ensures
        step@ == failed(e@),
{
    Step::Finish(Err(e.message()))
}

/// The first step of a download that starts at the moment `timestamp`, which holds
/// no separator.
pub fn start_download_at(config: &DownloadConfig, timestamp: &str) -> (step: Step)
    requires
        !timestamp@.contains('/'),
    ensures
        step@ == first_step(config@, timestamp@),
{
    match config.build_filesystem_paths_at(timestamp) {
        Ok(paths) => Step::Launch(config.build_request_body(&paths)),
        Err(e) => fail(&e),
    }
}

/// The first step of a download that starts now.
pub fn start_download(config: &DownloadConfig) -> (step: Step)
    ensures
        exists|timestamp: Seq<char>|
            is_timestamp_text(timestamp) && step@ == #[trigger] first_step(config@, timestamp),
{
    match config.build_filesystem_paths() {
        Ok(paths) => {
            let step = Step::Launch(config.build_request_body(&paths));
            proof {
                let moment = choose|timestamp: Seq<char>|
                    is_timestamp_text(timestamp) && is_paths_result(
                        Ok(paths),
                        #[trigger] paths_of(config@, timestamp),
                    );
                assert(step@ == first_step(config@, moment));
            }
            step
        },
        Err(e) => {
            let step = fail(&e);
            proof {
                let moment = choose|timestamp: Seq<char>|
                    is_timestamp_text(timestamp) && is_paths_result(
                        Err(e),
                        #[trigger] paths_of(config@, timestamp),
                    );
                assert(step@ == first_step(config@, moment));
            }
            step
        },
    }
}

/// The first step of a download of which only the user's inputs are known: the end
/// where they name no remote configuration, else the first step of the configuration
/// that they make.
pub open spec fn opening_step(
    source: Seq<char>,
    destination: Seq<char>,
    remote_config: Option<Seq<char>>,
    create_subfolder: bool,
    selected_files: Option<Seq<Seq<char>>>,
    create_backup: bool,
    timestamp: Seq<char>,
) -> StepView {
    match config_of(
        source,
        destination,
        remote_config,
        create_subfolder,
        selected_files,
        create_backup,
    ) {
        Ok(config) => first_step(config, timestamp),
        Err(e) => failed(e),
    }
}

/// Takes the user's inputs and gives the first step of a download that starts at the
/// moment `timestamp`, which holds no separator.
pub fn begin_download_at(
    source: String,
    destination: String,
    remote_config: Option<String>,
    create_subfolder: bool,
    selected_files: Option<Vec<String>>,
    create_backup: bool,
    timestamp: &str,
) -> (step: Step)
    requires
        !timestamp@.contains('/'),
    ensures
        step@ == opening_step(
            source@,
            destination@,
            option_text(remote_config),
            create_subfolder,
            option_texts(selected_files),
            create_backup,
            timestamp@,
        ),
{
    match DownloadConfig::new(
        source,
        destination,
        remote_config,
        create_subfolder,
        selected_files,
        create_backup,
    ) {
        Ok(config) => start_download_at(&config, timestamp),
        Err(e) => fail(&e),
    }
}

/// Takes the user's inputs and gives the first step of a download that starts now.
pub fn begin_download(
    source: String,
    destination: String,
    remote_config: Option<String>,
    create_subfolder: bool,
    selected_files: Option<Vec<String>>,
    create_backup: bool,
) -> (step: Step)
    ensures
        exists|timestamp: Seq<char>|
            is_timestamp_text(timestamp) && step@ == #[trigger] opening_step(
                source@,
                destination@,
                option_text(remote_config),
                create_subfolder,
                option_texts(selected_files),
                create_backup,
                timestamp,
            ),
{
    match DownloadConfig::new(
        source,
        destination,
        remote_config,
        create_subfolder,
        selected_files,
        create_backup,
    ) {
        Ok(config) => {
            let step = start_download(&config);
            proof {
                let moment = choose|timestamp: Seq<char>|
                    is_timestamp_text(timestamp) && step@ == #[trigger] first_step(
                        config@,
                        timestamp,
                    );
                assert(step@ == opening_step(
                    source@,
                    destination@,
                    option_text(remote_config),
                    create_subfolder,
                    option_texts(selected_files),
                    create_backup,
                    moment,
                ));
            }
            step
        },
        Err(e) => {
            let step = fail(&e);
            proof {
                // Without a configuration the moment plays no part: any will do.
                let any_moment = "20240131_235959"@;
                lemma_timestamp_example();
                assert(step@ == opening_step(
                    source@,
                    destination@,
                    option_text(remote_config),
                    create_subfolder,
                    option_texts(selected_files),
                    create_backup,
                    any_moment,
                ));
            }
            step
        },
    }
}

/// The step after the daemon's answer to the sync request.
pub fn after_launch(reply: &LaunchReply) -> (step: Step)
    ensures
        step@ == step_after_launch(reply@),
{
    match job_id_from_reply(reply) {
        Ok(jobid) => Step::Query { jobid, wait_secs: 0 },
        Err(e) => fail(&e),
    }
}

/// The step that the poller's state asks for.
pub fn step_for(jobid: i64, state: PollState) -> (step: Step)
    ensures
        step@ == step_of_state(jobid, state@),
{
    match state.into_outcome() {
        None => Step::Query { jobid, wait_secs: POLL_INTERVAL_SECS },
        Some(Ok(_)) => Step::Finish(Ok(String::from_str(SUCCESS_MESSAGE))),
        Some(Err(e)) => fail(&e),
    }
}

/// The step after the daemon's answer to a status query for the job `jobid`.
pub fn after_status(jobid: i64, reply: &StatusReply) -> (step: Step)
    ensures
        step@ == step_after_status(jobid, reply@),
{
    step_for(jobid, classify_reply(reply))
}

/// What a whole download comes to when the daemon gives these answers: `launch` to
/// the sync request and `statuses`, in their order, to the status queries. `None`
/// where the answers end while the job still runs.
pub open spec fn replayed(
    config: DownloadConfigView,
    timestamp: Seq<char>,
    launch: LaunchReplyView,
    statuses: Seq<StatusReplyView>,
) -> Option<Result<Seq<char>, Seq<char>>> {
    match first_step(config, timestamp) {
        StepView::Finish(result) => Some(result),
        _ => match step_after_launch(launch) {
            StepView::Finish(result) => Some(result),
            _ => match step_of_state(0, run(PollStateView::Running, statuses)) {
                StepView::Finish(result) => Some(result),
                _ => None,
            },
        },
    }
}

/// Runs a download that starts at the moment `timestamp`, which holds no separator,
/// against recorded answers of the daemon in place of the daemon.
pub fn replay_download(
    config: &DownloadConfig,
    timestamp: &str,
    launch: &LaunchReply,
    statuses: &Vec<StatusReply>,
) -> (result: Option<Result<String, String>>)
    requires
        !timestamp@.contains('/'),
    ensures
        match (result, replayed(config@, timestamp@, launch@, reply_views(statuses@))) {
            (None, None) => true,
            (Some(Ok(text)), Some(Ok(t))) => text@ == t,
            (Some(Err(text)), Some(Err(t))) => text@ == t,
            _ => false,
        },
{
    match start_download_at(config, timestamp) {
        Step::Finish(result) => { return Some(result); },
        _ => {},
    }
    match after_launch(launch) {
        Step::Finish(result) => { return Some(result); },
        _ => {},
    }
    match step_for(0, poll_all(statuses)) {
        Step::Finish(result) => Some(result),
        _ => None,
    }
}

} // verus!
