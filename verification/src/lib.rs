//! Orchestration rules for downloading a shared cloud folder through a local
//! file-sync daemon: how a folder reference is read, how destination and backup
//! paths are derived, which include rules a selection gives, how the request is
//! composed, and how the replies of the daemon are classified while a job runs.

pub mod clock;
pub mod download;
pub mod errors;
pub mod filter;
pub mod folder_id;
pub mod launcher;
pub mod notifications;
pub mod orchestrator;
pub mod paths;
pub mod poller;
pub mod remotes;
pub mod text;
pub mod types;
