//! One download: what the user asked for, the paths derived from it, and the
//! request that is sent to the daemon.

use vstd::prelude::*;
use crate::clock::{is_timestamp_text, lemma_timestamp_example, lemma_timestamp_has_no_separator, local_timestamp};
use crate::errors::{DownloadError, DownloadErrorView};
use crate::filter::{build_file_filter, include_rules, FileFilter};
use crate::folder_id::{folder_id, parse_gdrive_id};
use crate::paths::{backup_of, backup_path, destination_of, destination_path, is_inside, law_backup_is_sibling, parent_of};
use crate::text::texts;

verus! {

/// What the user asked for.
#[derive(Debug, PartialEq, Eq)]
pub struct DownloadConfig {
    source: String,
    destination: String,
    remote_config: String,
    create_subfolder: bool,
    selected_files: Option<Vec<String>>,
    create_backup: bool,
}

/// A `DownloadConfig` with its texts as character sequences.
pub struct DownloadConfigView {
    pub source: Seq<char>,
    pub destination: Seq<char>,
    pub remote_config: Seq<char>,
    pub create_subfolder: bool,
    pub selected_files: Option<Seq<Seq<char>>>,
    pub create_backup: bool,
}

/// The file systems of one download.
#[derive(Clone, Debug, PartialEq, Eq)]
pub struct FilesystemPaths {
    /// The remote side, in the daemon's syntax.
    pub src_fs: String,
    /// The local path that the download goes to.
    pub dst_fs: String,
    /// The local path that keeps what the download replaces, where a backup is made.
    pub backup_path: Option<String>,
}

/// A `FilesystemPaths` with its texts as character sequences.
pub struct FilesystemPathsView {
    pub src_fs: Seq<char>,
    pub dst_fs: Seq<char>,
    pub backup_path: Option<Seq<char>>,
}

/// The config block of a sync request.
#[derive(Clone, Debug, PartialEq, Eq)]
pub struct BackupConfig {
    /// The folder that keeps what the sync replaces or removes.
    pub backup_dir: String,
}

/// The document that asks the daemon for a sync.
#[derive(Clone, Debug, PartialEq, Eq)]
pub struct SyncRequest {
    /// Whether the daemon starts a job and answers at once; always set.
    pub is_async: bool,
    /// The remote side.
    pub src_fs: String,
    /// The local side.
    pub dst_fs: String,
    /// The config block, present where a backup is made.
    pub config: Option<BackupConfig>,
    /// The filter block, present where files were selected.
    pub filter: Option<FileFilter>,
}

/// A `SyncRequest` with its texts as character sequences.
pub struct SyncRequestView {
    pub is_async: bool,
    pub src_fs: Seq<char>,
    pub dst_fs: Seq<char>,
    pub backup_dir: Option<Seq<char>>,
    pub include_rule: Option<Seq<Seq<char>>>,
}

impl View for SyncRequest {
    type V = SyncRequestView;

    open spec fn view(&self) -> SyncRequestView {
        SyncRequestView {
            is_async: self.is_async,
            src_fs: self.src_fs@,
            dst_fs: self.dst_fs@,
            backup_dir: match self.config {
                Some(c) => Some(c.backup_dir@),
                None => None,
            },
            include_rule: match self.filter {
                Some(f) => Some(f@),
                None => None,
            },
        }
    }
}

/// The request for a download with these paths: the two sides, the backup folder
/// where the paths name one, and the include rules where files were selected.
pub open spec fn request_of(config: DownloadConfigView, paths: FilesystemPathsView) -> SyncRequestView {
    SyncRequestView {
        is_async: true,
        src_fs: paths.src_fs,
        dst_fs: paths.dst_fs,
        backup_dir: paths.backup_path,
        include_rule: match config.selected_files {
            Some(files) => Some(include_rules(files)),
            None => None,
        },
    }
}

/// The texts of an optional list of strings.
pub open spec fn option_texts(list: Option<Vec<String>>) -> Option<Seq<Seq<char>>> {
    match list {
        Some(v) => Some(texts(v@)),
        None => None,
    }
}

/// The text of an optional string.
pub open spec fn option_text(text: Option<String>) -> Option<Seq<char>> {
    match text {
        Some(t) => Some(t@),
        None => None,
    }
}

impl View for DownloadConfig {
    type V = DownloadConfigView;

    closed spec fn view(&self) -> DownloadConfigView {
        DownloadConfigView {
            source: self.source@,
            destination: self.destination@,
            remote_config: self.remote_config@,
            create_subfolder: self.create_subfolder,
            selected_files: option_texts(self.selected_files),
            create_backup: self.create_backup,
        }
    }
}

impl View for FilesystemPaths {
    type V = FilesystemPathsView;

    open spec fn view(&self) -> FilesystemPathsView {
        FilesystemPathsView {
            src_fs: self.src_fs@,
            dst_fs: self.dst_fs@,
            backup_path: option_text(self.backup_path),
        }
    }
}

/// The remote side of a download in the daemon's syntax: the remote's name, the
/// folder that is its root, and a colon.
pub open spec fn source_fs_spec(remote_config: Seq<char>, source: Seq<char>) -> Seq<char> {
    remote_config + ",root_folder_id="@ + folder_id(source) + ":"@
}

/// The paths of a download that starts at the moment `timestamp`, or why there are
/// none: a backup is asked for and the destination has no parent to hold it.
pub open spec fn paths_of(config: DownloadConfigView, timestamp: Seq<char>) -> Result<
    FilesystemPathsView,
    DownloadErrorView,
> {
    let src_fs = source_fs_spec(config.remote_config, config.source);
    let dst_fs = destination_of(config.destination, config.create_subfolder);
    if !config.create_backup {
        Ok(FilesystemPathsView { src_fs, dst_fs, backup_path: None })
    } else {
        match backup_of(dst_fs, timestamp) {
            Some(backup) => Ok(FilesystemPathsView { src_fs, dst_fs, backup_path: Some(backup) }),
            None => Err(DownloadErrorView::NoParentDirectory),
        }
    }
}

/// Where `result` names a backup folder, that folder stands in the parent of the
/// destination and does not lie below the destination.
pub open spec fn backup_is_beside(result: Result<FilesystemPaths, DownloadError>) -> bool {
    match result {
        Ok(paths) => match paths.backup_path {
            Some(backup) => parent_of(backup@) == parent_of(paths.dst_fs@) && !is_inside(
                backup@,
                paths.dst_fs@,
            ),
            None => true,
        },
        Err(_) => true,
    }
}

/// `result` is `expected`, text for text.
pub open spec fn is_paths_result(
    result: Result<FilesystemPaths, DownloadError>,
    expected: Result<FilesystemPathsView, DownloadErrorView>,
) -> bool {
    match (result, expected) {
        (Ok(paths), Ok(v)) => paths@ == v,
        (Err(e), Err(v)) => e@ == v,
        _ => false,
    }
}

impl DownloadConfig {
    /// A configuration can be used only with the name of a remote in it.
    #[verifier::type_invariant]
    closed spec fn has_remote(self) -> bool {
        self.remote_config@.len() > 0
    }

    /// Takes what the user asked for. Fails where no remote configuration is named:
    /// where `remote_config` is absent or empty.
    pub fn new(
        source: String,
        destination: String,
        remote_config: Option<String>,
        create_subfolder: bool,
        selected_files: Option<Vec<String>>,
        create_backup: bool,
    ) -> (result: Result<DownloadConfig, DownloadError>)
        ensures
            result is Ok <==> (remote_config is Some && remote_config->0@.len() > 0),
            result is Err ==> result->Err_0@ is MissingRemoteConfig,
            match (
                result,
                config_of(
                    source@,
                    destination@,
                    option_text(remote_config),
                    create_subfolder,
                    option_texts(selected_files),
                    create_backup,
                ),
            ) {
                (Ok(config), Ok(v)) => config@ == v,
                (Err(e), Err(v)) => e@ == v,
                _ => false,
            },
    {
        let remote_config = match remote_config {
            Some(name) => name,
            None => { return Err(DownloadError::MissingRemoteConfig); },
        };
        if remote_config.as_str().unicode_len() == 0 {
            return Err(DownloadError::MissingRemoteConfig);
        }
        Ok(
            DownloadConfig {
                source,
                destination,
                remote_config,
                create_subfolder,
                selected_files,
                create_backup,
            },
        )
    }

    /// The name of the remote configuration, which is never empty.
    pub fn remote_config(&self) -> (name: &str)
        ensures
            name@ == self@.remote_config,
            name@.len() > 0,
    {
        proof {
            use_type_invariant(self);
        }
        self.remote_config.as_str()
    }

    /// What the user gave as the folder to download: a link or an identifier.
    pub fn source(&self) -> (source: &str)
        ensures
            source@ == self@.source,
    {
        self.source.as_str()
    }

    /// The local path that the user chose.
    pub fn destination(&self) -> (destination: &str)
        ensures
            destination@ == self@.destination,
    {
        self.destination.as_str()
    }

    /// Whether the download goes into the archive folder below the destination.
    pub fn create_subfolder(&self) -> (flag: bool)
        ensures
            flag == self@.create_subfolder,
    {
        self.create_subfolder
    }

    /// The files that the user selected, where a selection was made.
    pub fn selected_files(&self) -> (files: &Option<Vec<String>>)
        ensures
            option_texts(*files) == self@.selected_files,
    {
        &self.selected_files
    }

    /// Whether what the download replaces is kept in a backup folder.
    pub fn create_backup(&self) -> (flag: bool)
        ensures
            flag == self@.create_backup,
    {
        self.create_backup
    }

    /// The path that the download goes to: the destination, or the archive folder in
    /// it where a subfolder is asked for and the destination is not that folder.
    pub fn build_destination_path(&self) -> (path: String)
        ensures
            path@ == destination_of(self@.destination, self@.create_subfolder),
    {
        destination_path(self.destination.as_str(), self.create_subfolder)
    }

    /// The remote side of the download in the daemon's syntax.
    pub fn build_source_fs(&self) -> (src_fs: String)
        ensures
            src_fs@ == source_fs_spec(self@.remote_config, self@.source),
    {
        let root_id = parse_gdrive_id(self.source.as_str());
        self.remote_config.clone().concat(",root_folder_id=").concat(root_id.as_str()).concat(":")
    }

    /// The paths of a download that starts at the moment `timestamp`, which holds no
    /// separator.
    pub fn build_filesystem_paths_at(&self, timestamp: &str) -> (result: Result<
        FilesystemPaths,
        DownloadError,
    >)
        requires
            !timestamp@.contains('/'),
        ensures
            is_paths_result(result, paths_of(self@, timestamp@)),
            backup_is_beside(result),
    {
        let src_fs = self.build_source_fs();
        let dst_fs = self.build_destination_path();
        let backup_path = if self.create_backup {
            match backup_path(dst_fs.as_str(), timestamp) {
                Ok(path) => Some(path),
                Err(e) => { return Err(e); },
            }
        } else {
            None
        };
        Ok(FilesystemPaths { src_fs, dst_fs, backup_path })
    }

    /// The path of the backup folder for the destination `dst_path`, named after the
    /// local time of this moment.
    pub fn build_backup_path(&self, dst_path: &str) -> (result: Result<String, DownloadError>)
        ensures
            match result {
                Ok(path) => {
                    &&& exists|timestamp: Seq<char>|
                        is_timestamp_text(timestamp) && #[trigger] backup_of(dst_path@, timestamp)
                            == Some(path@)
                    &&& parent_of(path@) == parent_of(dst_path@)
                    &&& !is_inside(path@, dst_path@)
                },
                Err(e) => e@ is NoParentDirectory && parent_of(dst_path@) is None,
            },
    {
        let timestamp = local_timestamp();
        proof {
            lemma_timestamp_has_no_separator(timestamp@);
        }
        backup_path(dst_path, timestamp.as_str())
    }

    /// The paths of a download that starts now. The backup folder, where one is asked
    /// for, is named after the local time of this moment; the clock is read for
    /// nothing else.
    pub fn build_filesystem_paths(&self) -> (result: Result<FilesystemPaths, DownloadError>)
        ensures
            exists|timestamp: Seq<char>|
                is_timestamp_text(timestamp) && is_paths_result(
                    result,
                    #[trigger] paths_of(self@, timestamp),
                ),
            backup_is_beside(result),
    {
        let src_fs = self.build_source_fs();
        let dst_fs = self.build_destination_path();
        if !self.create_backup {
            let result = Ok(FilesystemPaths { src_fs, dst_fs, backup_path: None });
            proof {
                // Without a backup the moment plays no part: any will do.
                lemma_timestamp_example();
                assert(is_paths_result(result, paths_of(self@, "20240131_235959"@)));
            }
            return result;
        }
        match self.build_backup_path(dst_fs.as_str()) {
            Ok(path) => {
                let ghost moment = choose|timestamp: Seq<char>|
                    is_timestamp_text(timestamp) && #[trigger] backup_of(dst_fs@, timestamp)
                        == Some(path@);
                let result = Ok(FilesystemPaths { src_fs, dst_fs, backup_path: Some(path) });
                assert(is_paths_result(result, paths_of(self@, moment)));
                result
            },
            Err(e) => {
                let result = Err(e);
                proof {
                    // Without a parent no moment gives a backup path.
                    lemma_timestamp_example();
                    assert(is_paths_result(result, paths_of(self@, "20240131_235959"@)));
                }
                result
            },
        }
    }

    /// Composes the request that is sent to the daemon.
    pub fn build_request_body(&self, paths: &FilesystemPaths) -> (request: SyncRequest)
        ensures
            request@ == request_of(self@, paths@),
    {
        let config = match &paths.backup_path {
            Some(backup) => Some(BackupConfig { backup_dir: backup.clone() }),
            None => None,
        };
        let filter = match &self.selected_files {
            Some(files) => Some(build_file_filter(files)),
            None => None,
        };
        SyncRequest {
            is_async: true,
            src_fs: paths.src_fs.clone(),
            dst_fs: paths.dst_fs.clone(),
            config,
            filter,
        }
    }
}

/// The view of the configuration that `new` makes of these inputs, where it makes
/// one: where a remote configuration is named.
pub open spec fn config_of(
    source: Seq<char>,
    destination: Seq<char>,
    remote_config: Option<Seq<char>>,
    create_subfolder: bool,
    selected_files: Option<Seq<Seq<char>>>,
    create_backup: bool,
) -> Result<DownloadConfigView, DownloadErrorView> {
    match remote_config {
        Some(name) => if name.len() > 0 {
            Ok(
                DownloadConfigView {
                    source,
                    destination,
                    remote_config: name,
                    create_subfolder,
                    selected_files,
                    create_backup,
                },
            )
        } else {
            Err(DownloadErrorView::MissingRemoteConfig)
        },
        None => Err(DownloadErrorView::MissingRemoteConfig),
    }
}

/// Paths are derived unless a backup is asked for and the destination has no parent;
/// they name a backup folder exactly when one is asked for.
pub proof fn law_backup_present_iff_asked(config: DownloadConfigView, timestamp: Seq<char>)
    ensures
        paths_of(config, timestamp) is Err <==> (config.create_backup && parent_of(
            destination_of(config.destination, config.create_subfolder),
        ) is None),
        paths_of(config, timestamp) is Ok ==> (paths_of(config, timestamp)->Ok_0.backup_path is Some
            <==> config.create_backup),
{
}

/// The backup folder that the paths of a download name stands in the parent of the
/// destination and does not lie below the destination, whatever the timestamp, as
/// long as it holds no separator.
pub proof fn law_backup_beside_destination(config: DownloadConfigView, timestamp: Seq<char>)
    requires
        !timestamp.contains('/'),
        paths_of(config, timestamp) is Ok,
        paths_of(config, timestamp)->Ok_0.backup_path is Some,
    ensures
        parent_of(paths_of(config, timestamp)->Ok_0.backup_path->0) == parent_of(
            paths_of(config, timestamp)->Ok_0.dst_fs,
        ),
        !is_inside(
            paths_of(config, timestamp)->Ok_0.backup_path->0,
            paths_of(config, timestamp)->Ok_0.dst_fs,
        ),
{
    law_backup_is_sibling(destination_of(config.destination, config.create_subfolder), timestamp);
}

/// The request always asks for a job, names the two sides as the paths do, and
/// holds a config block exactly where the paths name a backup folder and a filter
/// block exactly where files were selected.
pub proof fn law_request_blocks(config: DownloadConfigView, paths: FilesystemPathsView)
    ensures
        request_of(config, paths).is_async,
        request_of(config, paths).src_fs == paths.src_fs,
        request_of(config, paths).dst_fs == paths.dst_fs,
        request_of(config, paths).backup_dir is Some <==> paths.backup_path is Some,
        request_of(config, paths).include_rule is Some <==> config.selected_files is Some,
{
}

} // verus!
