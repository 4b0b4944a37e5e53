//! The files of a table's log.

use vstd::prelude::*;

use crate::data::Data;
use crate::last_checkpoint::{LastCheckpointHint, LastCheckpointHintView};

verus! {

/// Where a file is, and what a listing says of it.
#[derive(Debug)]
pub struct FileMeta {
    /// The URL of the file.
    pub location: String,
    /// When the file was last modified, in milliseconds since the Unix epoch.
    pub last_modified: i64,
    /// The size of the file in bytes.
    pub size: u64,
}

/// The mathematical value of [`FileMeta`].
#[verifier::ext_equal]
pub struct FileMetaView {
    pub location: Seq<char>,
    pub last_modified: i64,
    pub size: u64,
}

impl DeepView for FileMeta {
    type V = FileMetaView;

    open spec fn deep_view(&self) -> FileMetaView {
        FileMetaView {
            location: self.location.deep_view(),
            last_modified: self.last_modified,
            size: self.size,
        }
    }
}

impl Data for FileMeta {
    fn dup(&self) -> (res: Self) {
        FileMeta {
            location: self.location.dup(),
            last_modified: self.last_modified,
            size: self.size,
        }
    }

    fn same(&self, other: &Self) -> (res: bool) {
        self.location.same(&other.location)
            && self.last_modified == other.last_modified
            && self.size == other.size
    }
}

/// The kind of a log file, as its name tells it.
#[derive(Debug, Clone, Copy, PartialEq, Eq, Structural)]
pub enum LogPathFileType {
    /// A published commit.
    Commit,
    /// A commit that a catalog ratifies before it is published.
    StagedCommit,
    /// A checkpoint of one file.
    SinglePartCheckpoint,
    /// A checkpoint of one file with a unique name.
    UuidCheckpoint,
    /// A checkpoint of several files.
    MultiPartCheckpoint { part_num: u32, num_parts: u32 },
    /// Several commits in one file, up to version `hi`.
    CompactedCommit { hi: u64 },
    /// A version checksum.
    Crc,
    /// Anything else.
    Unknown,
}

/// A log file with what its name says.
#[derive(Debug)]
pub struct ParsedLogPath {
    /// The file.
    pub location: FileMeta,
    /// The table version that the file belongs to.
    pub version: u64,
    /// The kind of the file.
    pub file_type: LogPathFileType,
}

/// The mathematical value of [`ParsedLogPath`].
#[verifier::ext_equal]
pub struct ParsedLogPathView {
    pub location: FileMetaView,
    pub version: u64,
    pub file_type: LogPathFileType,
}

impl DeepView for ParsedLogPath {
    type V = ParsedLogPathView;

    open spec fn deep_view(&self) -> ParsedLogPathView {
        ParsedLogPathView {
            location: self.location.deep_view(),
            version: self.version,
            file_type: self.file_type,
        }
    }
}

impl Data for ParsedLogPath {
    fn dup(&self) -> (res: Self) {
        ParsedLogPath {
            location: self.location.dup(),
            version: self.version,
            file_type: self.file_type,
        }
    }

    fn same(&self, other: &Self) -> (res: bool) {
        self.location.same(&other.location)
            && self.version == other.version
            && self.file_type == other.file_type
    }
}

/// A log file as a connector supplies it.
#[derive(Debug)]
pub struct LogPath {
    /// The file with what its name says.
    pub path: ParsedLogPath,
}

/// The mathematical value of [`LogPath`].
#[verifier::ext_equal]
pub struct LogPathView {
    pub path: ParsedLogPathView,
}

impl DeepView for LogPath {
    type V = LogPathView;

    open spec fn deep_view(&self) -> LogPathView {
        LogPathView {
            path: self.path.deep_view(),
        }
    }
}

impl Data for LogPath {
    fn dup(&self) -> (res: Self) {
        LogPath {
            path: self.path.dup(),
        }
    }

    fn same(&self, other: &Self) -> (res: bool) {
        self.path.same(&other.path)
    }
}

/// The log files of one snapshot, sorted by kind.
#[derive(Debug)]
pub struct LogSegmentFiles {
    /// The commits after the checkpoint, by ascending version.
    pub ascending_commit_files: Vec<ParsedLogPath>,
    /// The compacted commits after the checkpoint, by ascending version.
    pub ascending_compaction_files: Vec<ParsedLogPath>,
    /// The files of the checkpoint.
    pub checkpoint_parts: Vec<ParsedLogPath>,
    /// The latest version checksum.
    pub latest_crc_file: Option<ParsedLogPath>,
    /// The commit of the version itself.
    pub latest_commit_file: Option<ParsedLogPath>,
    /// The largest version among the published commits.
    pub max_published_version: Option<u64>,
}

/// The mathematical value of [`LogSegmentFiles`].
#[verifier::ext_equal]
pub struct LogSegmentFilesView {
    pub ascending_commit_files: Seq<ParsedLogPathView>,
    pub ascending_compaction_files: Seq<ParsedLogPathView>,
    pub checkpoint_parts: Seq<ParsedLogPathView>,
    pub latest_crc_file: Option<ParsedLogPathView>,
    pub latest_commit_file: Option<ParsedLogPathView>,
    pub max_published_version: Option<u64>,
}

impl DeepView for LogSegmentFiles {
    type V = LogSegmentFilesView;

    open spec fn deep_view(&self) -> LogSegmentFilesView {
        LogSegmentFilesView {
            ascending_commit_files: self.ascending_commit_files.deep_view(),
            ascending_compaction_files: self.ascending_compaction_files.deep_view(),
            checkpoint_parts: self.checkpoint_parts.deep_view(),
            latest_crc_file: self.latest_crc_file.deep_view(),
            latest_commit_file: self.latest_commit_file.deep_view(),
            max_published_version: self.max_published_version,
        }
    }
}

impl Data for LogSegmentFiles {
    fn dup(&self) -> (res: Self) {
        LogSegmentFiles {
            ascending_commit_files: self.ascending_commit_files.dup(),
            ascending_compaction_files: self.ascending_compaction_files.dup(),
            checkpoint_parts: self.checkpoint_parts.dup(),
            latest_crc_file: self.latest_crc_file.dup(),
            latest_commit_file: self.latest_commit_file.dup(),
            max_published_version: self.max_published_version,
        }
    }

    fn same(&self, other: &Self) -> (res: bool) {
        self.ascending_commit_files.same(&other.ascending_commit_files)
            && self.ascending_compaction_files.same(&other.ascending_compaction_files)
            && self.checkpoint_parts.same(&other.checkpoint_parts)
            && self.latest_crc_file.same(&other.latest_crc_file)
            && self.latest_commit_file.same(&other.latest_commit_file)
            && self.max_published_version == other.max_published_version
    }
}

/// The part of the log that makes up one table version.
#[derive(Debug)]
pub struct LogSegment {
    /// The version that the segment makes up.
    pub end_version: u64,
    /// The version of the checkpoint.
    pub checkpoint_version: Option<u64>,
    /// The URL of the log directory.
    pub log_root: String,
    /// The files of the segment.
    pub listed: LogSegmentFiles,
    /// The contents of the `_last_checkpoint` file.
    pub last_checkpoint_metadata: Option<LastCheckpointHint>,
}

/// The mathematical value of [`LogSegment`].
#[verifier::ext_equal]
pub struct LogSegmentView {
    pub end_version: u64,
    pub checkpoint_version: Option<u64>,
    pub log_root: Seq<char>,
    pub listed: LogSegmentFilesView,
    pub last_checkpoint_metadata: Option<LastCheckpointHintView>,
}

impl DeepView for LogSegment {
    type V = LogSegmentView;

    open spec fn deep_view(&self) -> LogSegmentView {
        LogSegmentView {
            end_version: self.end_version,
            checkpoint_version: self.checkpoint_version,
            log_root: self.log_root.deep_view(),
            listed: self.listed.deep_view(),
            last_checkpoint_metadata: self.last_checkpoint_metadata.deep_view(),
        }
    }
}

impl Data for LogSegment {
    fn dup(&self) -> (res: Self) {
        LogSegment {
            end_version: self.end_version,
            checkpoint_version: self.checkpoint_version,
            log_root: self.log_root.dup(),
            listed: self.listed.dup(),
            last_checkpoint_metadata: self.last_checkpoint_metadata.dup(),
        }
    }

    fn same(&self, other: &Self) -> (res: bool) {
        self.end_version == other.end_version
            && self.checkpoint_version == other.checkpoint_version
            && self.log_root.same(&other.log_root)
            && self.listed.same(&other.listed)
            && self.last_checkpoint_metadata.same(&other.last_checkpoint_metadata)
    }
}

impl LogPath {
    /// The file with what its name says.
    pub fn into_parsed(self) -> (res: ParsedLogPath)
        ensures
            res == self.path,
    {
        self.path
    }
}

/// The files with what their names say.
pub open spec fn parsed_paths(paths: Seq<LogPath>) -> Seq<ParsedLogPath> {
    paths.map_values(|p: LogPath| p.path)
}

/// The files with what their names say.
pub fn into_parsed_paths(paths: Vec<LogPath>) -> (res: Vec<ParsedLogPath>)
    ensures
        res@ == parsed_paths(paths@),
{
    let ghost given = paths@;
    let mut res: Vec<ParsedLogPath> = Vec::new();
    for path in it: paths
        invariant
            it.seq() == given,
            res@.len() == it.index(),
            forall|j: int| 0 <= j < it.index() ==> (#[trigger] res@[j]) == given[j].path,
    {
        res.push(path.into_parsed());
    }
    assert(res@ =~= parsed_paths(given));
    res
}

impl Default for LogSegmentFiles {
    /// No files.
    fn default() -> (res: Self)
        ensures
            res.deep_view() == (LogSegmentFilesView {
                ascending_commit_files: Seq::empty(),
                ascending_compaction_files: Seq::empty(),
                checkpoint_parts: Seq::empty(),
                latest_crc_file: None,
                latest_commit_file: None,
                max_published_version: None,
            }),
    {
        let ascending_commit_files: Vec<ParsedLogPath> = Vec::new();
        let ascending_compaction_files: Vec<ParsedLogPath> = Vec::new();
        let checkpoint_parts: Vec<ParsedLogPath> = Vec::new();
        assert(ascending_commit_files.deep_view() =~= Seq::empty());
        assert(ascending_compaction_files.deep_view() =~= Seq::empty());
        assert(checkpoint_parts.deep_view() =~= Seq::empty());
        LogSegmentFiles {
            ascending_commit_files,
            ascending_compaction_files,
            checkpoint_parts,
            latest_crc_file: None,
            latest_commit_file: None,
            max_published_version: None,
        }
    }
}

} // verus!
