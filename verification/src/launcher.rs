//! Launching a job: how the daemon's answer to a sync request is read.

use vstd::prelude::*;
use crate::errors::{DownloadError, DownloadErrorView};

verus! {

/// What came back from posting the sync request.
#[derive(Clone, Debug, PartialEq, Eq)]
pub enum LaunchReply {
    /// The request could not be sent; holds the transport's words.
    TransportFailure(String),
    /// The daemon answered without success; holds the response body.
    HttpFailure(String),
    /// The daemon's answer could not be read; holds the reader's words.
    Unparsable(String),
    /// The daemon accepted the request; holds the job id, where the answer names one.
    Accepted(Option<i64>),
}

/// A `LaunchReply` with its texts as character sequences.
pub enum LaunchReplyView {
    TransportFailure(Seq<char>),
    HttpFailure(Seq<char>),
    Unparsable(Seq<char>),
    Accepted(Option<i64>),
}

impl View for LaunchReply {
    type V = LaunchReplyView;

    open spec fn view(&self) -> LaunchReplyView {
        match self {
            LaunchReply::TransportFailure(t) => LaunchReplyView::TransportFailure(t@),
            LaunchReply::HttpFailure(t) => LaunchReplyView::HttpFailure(t@),
            LaunchReply::Unparsable(t) => LaunchReplyView::Unparsable(t@),
            LaunchReply::Accepted(id) => LaunchReplyView::Accepted(*id),
        }
    }
}

/// The job that an answer names, or the failure that the answer is.
pub open spec fn launch_result(reply: LaunchReplyView) -> Result<i64, DownloadErrorView> {
    match reply {
        LaunchReplyView::TransportFailure(t) => Err(DownloadErrorView::LaunchTransport(t)),
        LaunchReplyView::HttpFailure(body) => Err(DownloadErrorView::LaunchRejected(body)),
        LaunchReplyView::Unparsable(t) => Err(DownloadErrorView::LaunchUnparsable(t)),
        LaunchReplyView::Accepted(None) => Err(DownloadErrorView::MissingJobId),
        LaunchReplyView::Accepted(Some(id)) => Ok(id),
    }
}

/// Reads the daemon's answer to the sync request: the id of the job it started, or
/// why none is known.
pub fn job_id_from_reply(reply: &LaunchReply) -> (result: Result<i64, DownloadError>)
    ensures
        match (result, launch_result(reply@)) {
            (Ok(id), Ok(expected)) => id == expected,
            (Err(e), Err(v)) => e@ == v,
            _ => false,
        },
{
    match reply {
        LaunchReply::TransportFailure(t) => Err(DownloadError::LaunchTransport(t.clone())),
        LaunchReply::HttpFailure(body) => Err(DownloadError::LaunchRejected(body.clone())),
        LaunchReply::Unparsable(t) => Err(DownloadError::LaunchUnparsable(t.clone())),
        LaunchReply::Accepted(None) => Err(DownloadError::MissingJobId),
        LaunchReply::Accepted(Some(id)) => Ok(*id),
    }
}

} // verus!
