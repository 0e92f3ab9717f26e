//! Tracking a running job: each answer to a status query moves the poller from
//! `Running` to `Running` again or to one of three terminal states.

use vstd::prelude::*;
use crate::errors::{CancelCause, DownloadError, DownloadErrorView, ErrorKind, kind_of, message_of};
use crate::text::{contains, contains_str, occurs_at};

verus! {

/// Seconds to wait between two status queries.
pub const POLL_INTERVAL_SECS: u64 = 1;

/// One snapshot of a job, as the daemon reports it.
#[derive(Clone, Debug, PartialEq, Eq)]
pub struct JobStatus {
    /// The job has ended.
    pub finished: bool,
    /// The daemon's error text; empty when there is none.
    pub error: String,
}

/// What came back from one status query.
#[derive(Clone, Debug, PartialEq, Eq)]
pub enum StatusReply {
    /// The query could not be sent; holds the transport's words.
    TransportFailure(String),
    /// The daemon answered without success; holds the response body.
    HttpFailure(String),
    /// The daemon's answer could not be read; holds the reader's words.
    Unparsable(String),
    /// The daemon's snapshot of the job.
    Status(JobStatus),
}

/// A `StatusReply` with its texts as character sequences.
pub enum StatusReplyView {
    TransportFailure(Seq<char>),
    HttpFailure(Seq<char>),
    Unparsable(Seq<char>),
    Status { finished: bool, error: Seq<char> },
}

impl View for StatusReply {
    type V = StatusReplyView;

    open spec fn view(&self) -> StatusReplyView {
        match self {
            StatusReply::TransportFailure(t) => StatusReplyView::TransportFailure(t@),
            StatusReply::HttpFailure(t) => StatusReplyView::HttpFailure(t@),
            StatusReply::Unparsable(t) => StatusReplyView::Unparsable(t@),
            StatusReply::Status(s) => StatusReplyView::Status {
                finished: s.finished,
                error: s.error@,
            },
        }
    }
}

/// The state of the poller.
#[derive(Clone, Debug, PartialEq, Eq)]
pub enum PollState {
    /// The job has not ended as far as is known.
    Running,
    /// The job ended without an error.
    Succeeded,
    /// The job, or the tracking of it, failed.
    Failed(DownloadError),
    /// The job was stopped from outside.
    Cancelled(CancelCause),
}

/// A `PollState` with its texts as character sequences.
pub enum PollStateView {
    Running,
    Succeeded,
    Failed(DownloadErrorView),
    Cancelled(CancelCause),
}

impl View for PollState {
    type V = PollStateView;

    open spec fn view(&self) -> PollStateView {
        match self {
            PollState::Running => PollStateView::Running,
            PollState::Succeeded => PollStateView::Succeeded,
            PollState::Failed(e) => PollStateView::Failed(e@),
            PollState::Cancelled(c) => PollStateView::Cancelled(*c),
        }
    }
}

/// Every state but `Running` is terminal.
pub open spec fn is_terminal(state: PollStateView) -> bool {
    !(state is Running)
}

/// A transport failure with these words means that the daemon is gone.
pub open spec fn tells_server_stopped(text: Seq<char>) -> bool {
    contains_str(text, "error sending request"@) || contains_str(text, "connection refused"@)
}

/// A refused status query with this body means that the daemon does not know the job.
pub open spec fn tells_job_unknown(body: Seq<char>) -> bool {
    contains_str(body, "job not found"@)
}

/// The state that one answer leads to from `Running`.
pub open spec fn classify(reply: StatusReplyView) -> PollStateView {
    match reply {
        StatusReplyView::TransportFailure(text) => if tells_server_stopped(text) {
            PollStateView::Cancelled(CancelCause::ServerStopped)
        } else {
            PollStateView::Failed(DownloadErrorView::StatusTransport(text))
        },
        StatusReplyView::HttpFailure(body) => if tells_job_unknown(body) {
            PollStateView::Cancelled(CancelCause::JobUnknown)
        } else {
            PollStateView::Failed(DownloadErrorView::StatusRejected(body))
        },
        StatusReplyView::Unparsable(text) => PollStateView::Failed(
            DownloadErrorView::StatusUnparsable(text),
        ),
        StatusReplyView::Status { finished, error } => if !finished {
            PollStateView::Running
        } else if error.len() == 0 {
            PollStateView::Succeeded
        } else {
            PollStateView::Failed(DownloadErrorView::JobFailed(error))
        },
    }
}

/// The transition rule: a terminal state stays, `Running` moves by `classify`.
pub open spec fn step(state: PollStateView, reply: StatusReplyView) -> PollStateView {
    if is_terminal(state) {
        state
    } else {
        classify(reply)
    }
}

/// The state after a run of answers, starting from `state`.
pub open spec fn run(state: PollStateView, replies: Seq<StatusReplyView>) -> PollStateView
    decreases replies.len(),
{
    if replies.len() == 0 {
        state
    } else {
        run(step(state, replies[0]), replies.drop_first())
    }
}

/// The states a poller can be in: a failure it holds is never of the kind `Cancelled`,
/// which has a state of its own.
pub open spec fn well_formed(state: PollStateView) -> bool {
    match state {
        PollStateView::Failed(e) => (e is StatusTransport || e is StatusRejected
            || e is StatusUnparsable || e is JobFailed),
        _ => true,
    }
}

/// What a state means for the caller: nothing yet, success, or the failure to report.
pub open spec fn outcome(state: PollStateView) -> Option<Result<(), DownloadErrorView>> {
    match state {
        PollStateView::Running => None,
        PollStateView::Succeeded => Some(Ok(())),
        PollStateView::Failed(e) => Some(Err(e)),
        PollStateView::Cancelled(c) => Some(Err(DownloadErrorView::Cancelled(c))),
    }
}

impl PollState {
    /// The state in which every poller starts.
    pub fn new() -> (state: PollState)
        ensures
            state@ is Running,
    {
        PollState::Running
    }

    /// Whether polling has ended.
    pub fn is_terminal(&self) -> (terminal: bool)
        ensures
            terminal == is_terminal(self@),
    {
        match self {
            PollState::Running => false,
            _ => true,
        }
    }

    /// The result to hand to the caller once polling has ended; `None` while it has not.
    pub fn into_outcome(self) -> (result: Option<Result<(), DownloadError>>)
        ensures
            match (result, outcome(self@)) {
                (None, None) => true,
                (Some(Ok(_)), Some(Ok(_))) => true,
                (Some(Err(e)), Some(Err(v))) => e@ == v,
                _ => false,
            },
    {
        match self {
            PollState::Running => None,
            PollState::Succeeded => Some(Ok(())),
            PollState::Failed(e) => Some(Err(e)),
            PollState::Cancelled(c) => Some(Err(DownloadError::Cancelled(c))),
        }
    }
}

/// Classifies one answer to a status query, as seen from `Running`.
pub fn classify_reply(reply: &StatusReply) -> (next: PollState)
    ensures
        next@ == classify(reply@),
        well_formed(next@),
{
    match reply {
        StatusReply::TransportFailure(text) => {
            if contains(text.as_str(), "error sending request") || contains(
                text.as_str(),
                "connection refused",
            ) {
                PollState::Cancelled(CancelCause::ServerStopped)
            } else {
                PollState::Failed(DownloadError::StatusTransport(text.clone()))
            }
        },
        StatusReply::HttpFailure(body) => {
            if contains(body.as_str(), "job not found") {
                PollState::Cancelled(CancelCause::JobUnknown)
            } else {
                PollState::Failed(DownloadError::StatusRejected(body.clone()))
            }
        },
        StatusReply::Unparsable(text) => PollState::Failed(
            DownloadError::StatusUnparsable(text.clone()),
        ),
        StatusReply::Status(status) => {
            if !status.finished {
                PollState::Running
            } else if status.error.as_str().unicode_len() == 0 {
                PollState::Succeeded
            } else {
                PollState::Failed(DownloadError::JobFailed(status.error.clone()))
            }
        },
    }
}

/// One transition of the poller: the state after `reply` has come in.
pub fn poll_step(state: PollState, reply: &StatusReply) -> (next: PollState)
    ensures
        next@ == step(state@, reply@),
        well_formed(state@) ==> well_formed(next@),
{
    match state {
        PollState::Running => classify_reply(reply),
        other => other,
    }
}

/// The answers of a run, each by its view.
pub open spec fn reply_views(replies: Seq<StatusReply>) -> Seq<StatusReplyView> {
    replies.map_values(|r: StatusReply| r@)
}

/// Once a state is terminal no answer changes it.
pub proof fn lemma_terminal_absorbs(state: PollStateView, replies: Seq<StatusReplyView>)
    requires
        is_terminal(state),
    ensures
        run(state, replies) == state,
    decreases replies.len(),
{
    if replies.len() > 0 {
        lemma_terminal_absorbs(state, replies.drop_first());
    }
}

/// Feeds a recorded run of answers to a poller that starts in `Running`, in their
/// order, and gives the state it ends in. Answers after the first terminal state
/// are not looked at.
pub fn poll_all(replies: &Vec<StatusReply>) -> (state: PollState)
    ensures
        state@ == run(PollStateView::Running, reply_views(replies@)),
        well_formed(state@),
{
    let ghost all = reply_views(replies@);
    let mut state = PollState::Running;
    let mut i: usize = 0;
    assert(all.skip(0) =~= all);
    while i < replies.len()
        invariant
            i <= replies.len(),
            all == reply_views(replies@),
            state@ is Running,
            run(PollStateView::Running, all) == run(state@, all.skip(i as int)),
        decreases replies.len() - i,
    {
        let next = poll_step(state, &replies[i]);
        proof {
            let rest = all.skip(i as int);
            assert(rest[0] == replies[i as int]@);
            assert(rest.drop_first() =~= all.skip(i + 1));
        }
        if next.is_terminal() {
            proof {
                lemma_terminal_absorbs(next@, all.skip(i + 1));
            }
            return next;
        }
        state = next;
        i = i + 1;
    }
    assert(all.skip(i as int).len() == 0);
    state
}

/// A job that has finished with an empty error text ends the poll in success.
pub proof fn law_clean_finish_succeeds()
    ensures
        step(
            PollStateView::Running,
            StatusReplyView::Status { finished: true, error: Seq::<char>::empty() },
        ) == PollStateView::Succeeded,
        outcome(PollStateView::Succeeded) == Some(Ok::<(), DownloadErrorView>(())),
{
}

/// A job that has finished with the error text `x` ends the poll in a failure of the
/// kind `Job`, whose message holds `x`.
pub proof fn law_error_finish_fails(x: Seq<char>)
    requires
        x.len() > 0,
    ensures
        step(PollStateView::Running, StatusReplyView::Status { finished: true, error: x })
            == PollStateView::Failed(DownloadErrorView::JobFailed(x)),
        outcome(PollStateView::Failed(DownloadErrorView::JobFailed(x))) == Some(
            Err::<(), DownloadErrorView>(DownloadErrorView::JobFailed(x)),
        ),
        kind_of(DownloadErrorView::JobFailed(x)) == ErrorKind::Job,
        contains_str(message_of(DownloadErrorView::JobFailed(x)), x),
{
    let prefix = "Job failed: "@;
    let text = message_of(DownloadErrorView::JobFailed(x));
    assert(text.subrange(prefix.len() as int, (prefix.len() + x.len()) as int) =~= x);
    assert(occurs_at(text, x, prefix.len() as int));
}

/// A status query that fails because the connection was refused ends the poll as
/// cancelled, and what is reported is of the kind `Cancelled`, not `Network`.
pub proof fn law_connection_refused_cancels(text: Seq<char>)
    requires
        contains_str(text, "connection refused"@),
    ensures
        step(PollStateView::Running, StatusReplyView::TransportFailure(text))
            == PollStateView::Cancelled(CancelCause::ServerStopped),
        outcome(PollStateView::Cancelled(CancelCause::ServerStopped)) == Some(
            Err::<(), DownloadErrorView>(DownloadErrorView::Cancelled(CancelCause::ServerStopped)),
        ),
        kind_of(DownloadErrorView::Cancelled(CancelCause::ServerStopped)) == ErrorKind::Cancelled,
        kind_of(DownloadErrorView::Cancelled(CancelCause::ServerStopped)) != ErrorKind::Network,
{
}

/// While the job has not finished the poller stays in `Running`, whatever the error
/// text of the snapshot.
pub proof fn law_unfinished_keeps_running(error: Seq<char>)
    ensures
        step(PollStateView::Running, StatusReplyView::Status { finished: false, error })
            == PollStateView::Running,
{
}

/// A terminal state is left by no answer: the caller is handed a result once.
pub proof fn law_terminal_states_stay(state: PollStateView, reply: StatusReplyView)
    requires
        is_terminal(state),
    ensures
        step(state, reply) == state,
{
}

} // verus!
