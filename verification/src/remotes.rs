//! The remotes of the daemon: which of its configured remotes are drive remotes,
//! and how the outcome of the authorize step is read.

use vstd::prelude::*;
use crate::errors::prefixed;
use crate::text::{extract_json, json_span, lemma_lex_total, lemma_lex_transitive, lex_le, same_text, sorted, str_le, texts};

verus! {

/// The name under which the drive remote is registered with the daemon.
pub const DEFAULT_REMOTE_NAME: &'static str = "gdrive_unofficial_neuro_kar";

/// The backend type of a drive remote.
pub const DRIVE_BACKEND: &'static str = "drive";

/// One entry of the daemon's configuration dump.
#[derive(Clone, Debug, PartialEq, Eq)]
pub struct RemoteEntry {
    /// The remote's name.
    pub name: String,
    /// The text of its `type` field, where it has one that is a text.
    pub backend: Option<String>,
}

/// A `RemoteEntry` with its texts as character sequences.
pub struct RemoteEntryView {
    pub name: Seq<char>,
    pub backend: Option<Seq<char>>,
}

impl View for RemoteEntry {
    type V = RemoteEntryView;

    open spec fn view(&self) -> RemoteEntryView {
        RemoteEntryView {
            name: self.name@,
            backend: match self.backend {
                Some(b) => Some(b@),
                None => None,
            },
        }
    }
}

/// The entries of a dump, each by its view.
pub open spec fn entry_views(entries: Seq<RemoteEntry>) -> Seq<RemoteEntryView> {
    entries.map_values(|e: RemoteEntry| e@)
}

/// An entry is a drive remote when its backend type is `drive`.
pub open spec fn is_drive(entry: RemoteEntryView) -> bool {
    entry.backend == Some(DRIVE_BACKEND@)
}

/// The names of the drive remotes among `entries`, in the order of the entries.
pub open spec fn drive_names(entries: Seq<RemoteEntryView>) -> Seq<Seq<char>> {
    entries.filter(|e: RemoteEntryView| is_drive(e)).map_values(|e: RemoteEntryView| e.name)
}

/// Puts `name` into the sorted list `names` at its place.
pub fn insert_sorted(names: &mut Vec<String>, name: String)
    requires
        sorted(texts(old(names)@)),
    ensures
        sorted(texts(final(names)@)),
        texts(final(names)@).to_multiset() == texts(old(names)@).to_multiset().insert(name@),
        final(names)@.len() == old(names)@.len() + 1,
{
    let ghost before = texts(names@);
    let mut pos: usize = 0;
    while pos < names.len() && str_le(names[pos].as_str(), name.as_str())
        invariant
            pos <= names.len(),
            before == texts(names@),
            forall|j: int| 0 <= j < pos ==> lex_le(before[j], name@),
        decreases names.len() - pos,
    {
        pos = pos + 1;
    }
    names.insert(pos, name);
    proof {
        let after = texts(names@);
        assert(after =~= before.insert(pos as int, name@));
        vstd::seq_lib::to_multiset_insert(before, pos as int, name@);
        assert forall|i: int, j: int| 0 <= i < j < after.len() implies lex_le(
            after[i],
            after[j],
        ) by {
            if j == pos {
                assert(after[i] == before[i]);
            } else if i == pos {
                // `name` comes before the one that stopped the scan, which comes
                // before all that follow it.
                assert(after[j] == before[j - 1]);
                lemma_lex_total(before[pos as int], name@);
                if j - 1 > pos {
                    assert(lex_le(before[pos as int], before[j - 1]));
                    lemma_lex_transitive(name@, before[pos as int], before[j - 1]);
                }
            } else {
                let bi = if i < pos { i } else { i - 1 };
                let bj = if j < pos { j } else { j - 1 };
                assert(after[i] == before[bi] && after[j] == before[bj]);
                assert(lex_le(before[bi], before[bj]));
            }
        }
    }
}

/// The names of the drive remotes in a configuration dump, sorted.
pub fn drive_remotes(entries: &Vec<RemoteEntry>) -> (names: Vec<String>)
    ensures
        sorted(texts(names@)),
        texts(names@).to_multiset() == drive_names(entry_views(entries@)).to_multiset(),
{
    let ghost all = entry_views(entries@);
    let ghost keep = |e: RemoteEntryView| is_drive(e);
    let ghost name_of = |e: RemoteEntryView| e.name;
    let mut names: Vec<String> = Vec::new();
    let mut i: usize = 0;
    proof {
        assert(all.take(0) =~= Seq::<RemoteEntryView>::empty());
        assert(all.take(0).filter(keep) =~= Seq::<RemoteEntryView>::empty()) by {
            reveal(Seq::filter);
        }
        assert(drive_names(all.take(0)) =~= Seq::<Seq<char>>::empty());
        assert(texts(names@) =~= Seq::<Seq<char>>::empty());
    }
    while i < entries.len()
        invariant
            i <= entries.len(),
            all == entry_views(entries@),
            keep == (|e: RemoteEntryView| is_drive(e)),
            name_of == (|e: RemoteEntryView| e.name),
            sorted(texts(names@)),
            texts(names@).to_multiset() == drive_names(all.take(i as int)).to_multiset(),
        decreases entries.len() - i,
    {
        let entry = &entries[i];
        let is_drive_entry = match &entry.backend {
            Some(b) => same_text(b.as_str(), DRIVE_BACKEND),
            None => false,
        };
        proof {
            let front = all.take(i as int);
            assert(all.take(i + 1) =~= front.push(all[i as int]));
            assert(all[i as int] == entry@);
            assert(is_drive_entry == is_drive(entry@));
            front.lemma_filter_push(entry@, keep);
            if is_drive_entry {
                assert(front.push(entry@).filter(keep) == front.filter(keep).push(entry@));
                assert(drive_names(all.take(i + 1)) =~= drive_names(front).push(entry.name@));
                vstd::seq_lib::to_multiset_build(drive_names(front), entry.name@);
            } else {
                assert(drive_names(all.take(i + 1)) == drive_names(front));
            }
        }
        if is_drive_entry {
            insert_sorted(&mut names, entry.name.clone());
        }
        i = i + 1;
    }
    assert(all.take(i as int) =~= all);
    names
}

/// A failure while remotes are listed or the drive remote is created.
#[derive(Clone, Debug, PartialEq, Eq)]
pub enum RemoteError {
    /// The sync program is not installed.
    ProgramMissing,
    /// The authorize step could not be started; holds the system's words.
    AuthorizeNotRun(String),
    /// The authorize step ended without success; holds what it wrote to its error stream.
    AuthorizationFailed(String),
    /// The authorize step wrote no token.
    MissingToken,
    /// The daemon did not create the remote; holds its words.
    CreateFailed(String),
    /// The daemon did not list its remotes; holds its words.
    ListFailed(String),
}

/// A `RemoteError` with its texts as character sequences.
pub enum RemoteErrorView {
    ProgramMissing,
    AuthorizeNotRun(Seq<char>),
    AuthorizationFailed(Seq<char>),
    MissingToken,
    CreateFailed(Seq<char>),
    ListFailed(Seq<char>),
}

impl View for RemoteError {
    type V = RemoteErrorView;

    open spec fn view(&self) -> RemoteErrorView {
        match self {
            RemoteError::ProgramMissing => RemoteErrorView::ProgramMissing,
            RemoteError::AuthorizeNotRun(t) => RemoteErrorView::AuthorizeNotRun(t@),
            RemoteError::AuthorizationFailed(t) => RemoteErrorView::AuthorizationFailed(t@),
            RemoteError::MissingToken => RemoteErrorView::MissingToken,
            RemoteError::CreateFailed(t) => RemoteErrorView::CreateFailed(t@),
            RemoteError::ListFailed(t) => RemoteErrorView::ListFailed(t@),
        }
    }
}

/// The one line shown to the user for each failure.
pub open spec fn remote_message_of(e: RemoteErrorView) -> Seq<char> {
    match e {
        RemoteErrorView::ProgramMissing => "Rclone not found"@,
        RemoteErrorView::AuthorizeNotRun(t) => "Failed to run authorize: "@ + t,
        RemoteErrorView::AuthorizationFailed(t) => "Authorization failed: "@ + t,
        RemoteErrorView::MissingToken => "Failed to extract token from auth output"@,
        RemoteErrorView::CreateFailed(t) => "Failed to create config context: "@ + t,
        RemoteErrorView::ListFailed(t) => "Failed to fetch remotes: "@ + t,
    }
}

impl RemoteError {
    /// The line shown to the user.
    pub fn message(&self) -> (text: String)
        ensures
            text@ == remote_message_of(self@),
    {
        match self {
            RemoteError::ProgramMissing => String::from_str("Rclone not found"),
            RemoteError::AuthorizeNotRun(t) => prefixed("Failed to run authorize: ", t.as_str()),
            RemoteError::AuthorizationFailed(t) => prefixed("Authorization failed: ", t.as_str()),
            RemoteError::MissingToken => String::from_str(
                "Failed to extract token from auth output",
            ),
            RemoteError::CreateFailed(t) => prefixed(
                "Failed to create config context: ",
                t.as_str(),
            ),
            RemoteError::ListFailed(t) => prefixed("Failed to fetch remotes: ", t.as_str()),
        }
    }
}

/// What the authorize step yields: the token it wrote, or why there is none.
pub open spec fn authorize_result(
    succeeded: bool,
    stdout: Seq<char>,
    stderr: Seq<char>,
) -> Result<Seq<char>, RemoteErrorView> {
    if !succeeded {
        Err(RemoteErrorView::AuthorizationFailed(stderr))
    } else {
        match json_span(stdout) {
            Some(token) => Ok(token),
            None => Err(RemoteErrorView::MissingToken),
        }
    }
}

/// Reads the outcome of the authorize step: whether it ended with success, and what it
/// wrote to its two streams. The token is the JSON object in its output.
pub fn token_from_authorize(succeeded: bool, stdout: &str, stderr: &str) -> (result: Result<
    String,
    RemoteError,
>)
    ensures
        match (result, authorize_result(succeeded, stdout@, stderr@)) {
            (Ok(token), Ok(t)) => token@ == t,
            (Err(e), Err(v)) => e@ == v,
            _ => false,
        },
{
    if !succeeded {
        return Err(RemoteError::AuthorizationFailed(String::from_str(stderr)));
    }
    match extract_json(stdout) {
        Some(token) => Ok(token),
        None => Err(RemoteError::MissingToken),
    }
}

} // verus!
