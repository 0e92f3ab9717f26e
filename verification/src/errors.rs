//! The failures of a download, tagged by kind so that callers branch on the
//! kind and show the message.

use vstd::prelude::*;

verus! {

/// The kinds of failure a download can end in.
#[derive(Clone, Copy, Debug, PartialEq, Eq, Structural)]
pub enum ErrorKind {
    /// The remote configuration name is missing.
    Config,
    /// A path that is needed cannot be derived.
    Path,
    /// The daemon could not be reached, or refused the request.
    Network,
    /// The daemon answered with something incomplete or unreadable.
    Protocol,
    /// The daemon reports that the job itself failed.
    Job,
    /// The job was stopped from outside: the daemon is gone or no longer knows the job.
    Cancelled,
}

/// Why a running job counts as cancelled.
#[derive(Clone, Copy, Debug, PartialEq, Eq, Structural)]
pub enum CancelCause {
    /// The daemon can no longer be reached.
    ServerStopped,
    /// The daemon no longer knows the job.
    JobUnknown,
}

/// A failure of one download.
#[derive(Clone, Debug, PartialEq, Eq)]
pub enum DownloadError {
    /// No remote configuration name was given.
    MissingRemoteConfig,
    /// The destination has no parent directory to hold a backup.
    NoParentDirectory,
    /// The sync request could not be sent; holds the transport's words.
    LaunchTransport(String),
    /// The daemon refused the sync request; holds the response body.
    LaunchRejected(String),
    /// The daemon's answer to the sync request could not be read; holds the reader's words.
    LaunchUnparsable(String),
    /// The daemon accepted the sync request and named no job.
    MissingJobId,
    /// A status query could not be sent; holds the transport's words.
    StatusTransport(String),
    /// The daemon refused a status query; holds the response body.
    StatusRejected(String),
    /// The daemon's answer to a status query could not be read; holds the reader's words.
    StatusUnparsable(String),
    /// The job finished with an error; holds the daemon's words.
    JobFailed(String),
    /// The job was cancelled from outside.
    Cancelled(CancelCause),
}

/// A `DownloadError` with its texts as character sequences.
pub enum DownloadErrorView {
    MissingRemoteConfig,
    NoParentDirectory,
    LaunchTransport(Seq<char>),
    LaunchRejected(Seq<char>),
    LaunchUnparsable(Seq<char>),
    MissingJobId,
    StatusTransport(Seq<char>),
    StatusRejected(Seq<char>),
    StatusUnparsable(Seq<char>),
    JobFailed(Seq<char>),
    Cancelled(CancelCause),
}

impl View for DownloadError {
    type V = DownloadErrorView;

    open spec fn view(&self) -> DownloadErrorView {
        match self {
            DownloadError::MissingRemoteConfig => DownloadErrorView::MissingRemoteConfig,
            DownloadError::NoParentDirectory => DownloadErrorView::NoParentDirectory,
            DownloadError::LaunchTransport(t) => DownloadErrorView::LaunchTransport(t@),
            DownloadError::LaunchRejected(t) => DownloadErrorView::LaunchRejected(t@),
            DownloadError::LaunchUnparsable(t) => DownloadErrorView::LaunchUnparsable(t@),
            DownloadError::MissingJobId => DownloadErrorView::MissingJobId,
            DownloadError::StatusTransport(t) => DownloadErrorView::StatusTransport(t@),
            DownloadError::StatusRejected(t) => DownloadErrorView::StatusRejected(t@),
            DownloadError::StatusUnparsable(t) => DownloadErrorView::StatusUnparsable(t@),
            DownloadError::JobFailed(t) => DownloadErrorView::JobFailed(t@),
            DownloadError::Cancelled(c) => DownloadErrorView::Cancelled(*c),
        }
    }
}

/// The kind of each failure.
pub open spec fn kind_of(e: DownloadErrorView) -> ErrorKind {
    match e {
        DownloadErrorView::MissingRemoteConfig => ErrorKind::Config,
        DownloadErrorView::NoParentDirectory => ErrorKind::Path,
        DownloadErrorView::LaunchTransport(_) => ErrorKind::Network,
        DownloadErrorView::LaunchRejected(_) => ErrorKind::Network,
        DownloadErrorView::LaunchUnparsable(_) => ErrorKind::Protocol,
        DownloadErrorView::MissingJobId => ErrorKind::Protocol,
        DownloadErrorView::StatusTransport(_) => ErrorKind::Network,
        DownloadErrorView::StatusRejected(_) => ErrorKind::Network,
        DownloadErrorView::StatusUnparsable(_) => ErrorKind::Protocol,
        DownloadErrorView::JobFailed(_) => ErrorKind::Job,
        DownloadErrorView::Cancelled(_) => ErrorKind::Cancelled,
    }
}

/// The one line shown to the user for each failure.
pub open spec fn message_of(e: DownloadErrorView) -> Seq<char> {
    match e {
        DownloadErrorView::MissingRemoteConfig =>
            "Remote configuration is required. Please authorize first."@,
        DownloadErrorView::NoParentDirectory => "Cannot get parent directory of destination"@,
        DownloadErrorView::LaunchTransport(t) => "Sync start failed: "@ + t,
        DownloadErrorView::LaunchRejected(t) => "Sync start failed: "@ + t,
        DownloadErrorView::LaunchUnparsable(t) => "Failed to parse sync response: "@ + t,
        DownloadErrorView::MissingJobId => "No jobid returned"@,
        DownloadErrorView::StatusTransport(t) => "Failed to check job status: "@ + t,
        DownloadErrorView::StatusRejected(t) => "Job status check failed: "@ + t,
        DownloadErrorView::StatusUnparsable(t) => "Failed to parse job status: "@ + t,
        DownloadErrorView::JobFailed(t) => "Job failed: "@ + t,
        DownloadErrorView::Cancelled(CancelCause::ServerStopped) =>
            "Download cancelled (server stopped)"@,
        DownloadErrorView::Cancelled(CancelCause::JobUnknown) => "Download cancelled"@,
    }
}

/// `prefix` followed by `detail`, as one string.
pub fn prefixed(prefix: &str, detail: &str) -> (text: String)
    ensures
        text@ == prefix@ + detail@,
{
    String::from_str(prefix).concat(detail)
}

impl DownloadError {
    /// The kind of this failure.
    pub fn kind(&self) -> (kind: ErrorKind)
        ensures
            kind == kind_of(self@),
    {
        match self {
            DownloadError::MissingRemoteConfig => ErrorKind::Config,
            DownloadError::NoParentDirectory => ErrorKind::Path,
            DownloadError::LaunchTransport(_) => ErrorKind::Network,
            DownloadError::LaunchRejected(_) => ErrorKind::Network,
            DownloadError::LaunchUnparsable(_) => ErrorKind::Protocol,
            DownloadError::MissingJobId => ErrorKind::Protocol,
            DownloadError::StatusTransport(_) => ErrorKind::Network,
            DownloadError::StatusRejected(_) => ErrorKind::Network,
            DownloadError::StatusUnparsable(_) => ErrorKind::Protocol,
            DownloadError::JobFailed(_) => ErrorKind::Job,
            DownloadError::Cancelled(_) => ErrorKind::Cancelled,
        }
    }

    /// The line shown to the user.
    pub fn message(&self) -> (text: String)
        ensures
            text@ == message_of(self@),
    {
        match self {
            DownloadError::MissingRemoteConfig => String::from_str(
                "Remote configuration is required. Please authorize first.",
            ),
            DownloadError::NoParentDirectory => String::from_str(
                "Cannot get parent directory of destination",
            ),
            DownloadError::LaunchTransport(t) => prefixed("Sync start failed: ", t.as_str()),
            DownloadError::LaunchRejected(t) => prefixed("Sync start failed: ", t.as_str()),
            DownloadError::LaunchUnparsable(t) => prefixed(
                "Failed to parse sync response: ",
                t.as_str(),
            ),
            DownloadError::MissingJobId => String::from_str("No jobid returned"),
            DownloadError::StatusTransport(t) => prefixed(
                "Failed to check job status: ",
                t.as_str(),
            ),
            DownloadError::StatusRejected(t) => prefixed("Job status check failed: ", t.as_str()),
            DownloadError::StatusUnparsable(t) => prefixed(
                "Failed to parse job status: ",
                t.as_str(),
            ),
            DownloadError::JobFailed(t) => prefixed("Job failed: ", t.as_str()),
            DownloadError::Cancelled(CancelCause::ServerStopped) => String::from_str(
                "Download cancelled (server stopped)",
            ),
            DownloadError::Cancelled(CancelCause::JobUnknown) => String::from_str(
                "Download cancelled",
            ),
        }
    }
}

} // verus!
