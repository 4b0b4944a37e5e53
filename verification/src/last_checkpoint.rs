//! The contents of a `_last_checkpoint` file.

use vstd::prelude::*;

use crate::actions::{
    DomainMetadata, DomainMetadataView, Metadata, MetadataView, Protocol, ProtocolView,
    SetTransaction, SetTransactionView,
};
use crate::data::Data;
use crate::string_map::StringMap;

verus! {

/// The metadata of a checkpoint.
#[derive(Debug)]
pub struct CheckpointMetadata {
    /// The version of the checkpoint.
    pub version: i64,
    /// Tags.
    pub tags: Option<StringMap<String>>,
}

/// The mathematical value of [`CheckpointMetadata`].
#[verifier::ext_equal]
pub struct CheckpointMetadataView {
    pub version: i64,
    pub tags: Option<Map<Seq<char>, Seq<char>>>,
}

impl DeepView for CheckpointMetadata {
    type V = CheckpointMetadataView;

    open spec fn deep_view(&self) -> CheckpointMetadataView {
        CheckpointMetadataView {
            version: self.version,
            tags: self.tags.deep_view(),
        }
    }
}

impl Data for CheckpointMetadata {
    fn dup(&self) -> (res: Self) {
        CheckpointMetadata {
            version: self.version,
            tags: self.tags.dup(),
        }
    }

    fn same(&self, other: &Self) -> (res: bool) {
        self.version == other.version
            && self.tags.same(&other.tags)
    }
}

/// A file that holds part of the file actions of a checkpoint.
#[derive(Debug)]
pub struct Sidecar {
    /// The path of the file.
    pub path: String,
    /// The size of the file in bytes.
    pub size_in_bytes: i64,
    /// When the file was last modified, in milliseconds since the Unix epoch.
    pub modification_time: i64,
    /// Tags.
    pub tags: Option<StringMap<String>>,
}

/// The mathematical value of [`Sidecar`].
#[verifier::ext_equal]
pub struct SidecarView {
    pub path: Seq<char>,
    pub size_in_bytes: i64,
    pub modification_time: i64,
    pub tags: Option<Map<Seq<char>, Seq<char>>>,
}

impl DeepView for Sidecar {
    type V = SidecarView;

    open spec fn deep_view(&self) -> SidecarView {
        SidecarView {
            path: self.path.deep_view(),
            size_in_bytes: self.size_in_bytes,
            modification_time: self.modification_time,
            tags: self.tags.deep_view(),
        }
    }
}

impl Data for Sidecar {
    fn dup(&self) -> (res: Self) {
        Sidecar {
            path: self.path.dup(),
            size_in_bytes: self.size_in_bytes,
            modification_time: self.modification_time,
            tags: self.tags.dup(),
        }
    }

    fn same(&self, other: &Self) -> (res: bool) {
        self.path.same(&other.path)
            && self.size_in_bytes == other.size_in_bytes
            && self.modification_time == other.modification_time
            && self.tags.same(&other.tags)
    }
}

/// An action of a checkpoint that is not about files.
#[derive(Debug)]
pub enum HintAction {
    /// Table metadata.
    Metadata(Metadata),
    /// A table protocol.
    Protocol(Protocol),
    /// An application transaction.
    Txn(SetTransaction),
    /// A metadata domain.
    DomainMetadata(DomainMetadata),
    /// The metadata of the checkpoint.
    CheckpointMetadata(CheckpointMetadata),
}

/// The mathematical value of [`HintAction`].
#[verifier::ext_equal]
pub enum HintActionView {
    Metadata(MetadataView),
    Protocol(ProtocolView),
    Txn(SetTransactionView),
    DomainMetadata(DomainMetadataView),
    CheckpointMetadata(CheckpointMetadataView),
}

impl DeepView for HintAction {
    type V = HintActionView;

    open spec fn deep_view(&self) -> HintActionView {
        match self {
            HintAction::Metadata(value) => HintActionView::Metadata(value.deep_view()),
            HintAction::Protocol(value) => HintActionView::Protocol(value.deep_view()),
            HintAction::Txn(value) => HintActionView::Txn(value.deep_view()),
            HintAction::DomainMetadata(value) => HintActionView::DomainMetadata(value.deep_view()),
            HintAction::CheckpointMetadata(value) => HintActionView::CheckpointMetadata(value.deep_view()),
        }
    }
}

impl Data for HintAction {
    fn dup(&self) -> (res: Self) {
        match self {
            HintAction::Metadata(value) => HintAction::Metadata(value.dup()),
            HintAction::Protocol(value) => HintAction::Protocol(value.dup()),
            HintAction::Txn(value) => HintAction::Txn(value.dup()),
            HintAction::DomainMetadata(value) => HintAction::DomainMetadata(value.dup()),
            HintAction::CheckpointMetadata(value) => HintAction::CheckpointMetadata(value.dup()),
        }
    }

    fn same(&self, other: &Self) -> (res: bool) {
        match (self, other) {
            (HintAction::Metadata(a), HintAction::Metadata(b)) => a.same(b),
            (HintAction::Protocol(a), HintAction::Protocol(b)) => a.same(b),
            (HintAction::Txn(a), HintAction::Txn(b)) => a.same(b),
            (HintAction::DomainMetadata(a), HintAction::DomainMetadata(b)) => a.same(b),
            (HintAction::CheckpointMetadata(a), HintAction::CheckpointMetadata(b)) => a.same(b),
            _ => false,
        }
    }
}

/// What the file says of a checkpoint with sidecars.
#[derive(Debug)]
pub struct LastCheckpointV2 {
    /// The name of the checkpoint file.
    pub path: String,
    /// The size of the checkpoint file.
    pub size_in_bytes: Option<i64>,
    /// When the checkpoint file was last modified.
    pub modification_time: Option<i64>,
    /// The sidecars.
    pub sidecar_files: Option<Vec<Sidecar>>,
    /// The actions that are not about files.
    pub non_file_actions: Option<Vec<HintAction>>,
}

/// The mathematical value of [`LastCheckpointV2`].
#[verifier::ext_equal]
pub struct LastCheckpointV2View {
    pub path: Seq<char>,
    pub size_in_bytes: Option<i64>,
    pub modification_time: Option<i64>,
    pub sidecar_files: Option<Seq<SidecarView>>,
    pub non_file_actions: Option<Seq<HintActionView>>,
}

impl DeepView for LastCheckpointV2 {
    type V = LastCheckpointV2View;

    open spec fn deep_view(&self) -> LastCheckpointV2View {
        LastCheckpointV2View {
            path: self.path.deep_view(),
            size_in_bytes: self.size_in_bytes,
            modification_time: self.modification_time,
            sidecar_files: self.sidecar_files.deep_view(),
            non_file_actions: self.non_file_actions.deep_view(),
        }
    }
}

impl Data for LastCheckpointV2 {
    fn dup(&self) -> (res: Self) {
        LastCheckpointV2 {
            path: self.path.dup(),
            size_in_bytes: self.size_in_bytes,
            modification_time: self.modification_time,
            sidecar_files: self.sidecar_files.dup(),
            non_file_actions: self.non_file_actions.dup(),
        }
    }

    fn same(&self, other: &Self) -> (res: bool) {
        self.path.same(&other.path)
            && self.size_in_bytes == other.size_in_bytes
            && self.modification_time == other.modification_time
            && self.sidecar_files.same(&other.sidecar_files)
            && self.non_file_actions.same(&other.non_file_actions)
    }
}

/// The contents of the file.
#[derive(Debug)]
pub struct LastCheckpointHint {
    /// The version of the checkpoint.
    pub version: u64,
    /// The number of actions in the checkpoint.
    pub size: i64,
    /// The number of checkpoint files.
    pub parts: Option<usize>,
    /// The total size of the checkpoint in bytes.
    pub size_in_bytes: Option<i64>,
    /// The number of data files in the checkpoint.
    pub num_of_add_files: Option<i64>,
    /// The schema of the checkpoint.
    pub checkpoint_schema: Option<String>,
    /// The checksum of the file itself.
    pub checksum: Option<String>,
    /// Tags.
    pub tags: Option<StringMap<String>>,
    /// What the file says of a checkpoint with sidecars.
    pub v2_checkpoint: Option<LastCheckpointV2>,
}

/// The mathematical value of [`LastCheckpointHint`].
#[verifier::ext_equal]
pub struct LastCheckpointHintView {
    pub version: u64,
    pub size: i64,
    pub parts: Option<usize>,
    pub size_in_bytes: Option<i64>,
    pub num_of_add_files: Option<i64>,
    pub checkpoint_schema: Option<Seq<char>>,
    pub checksum: Option<Seq<char>>,
    pub tags: Option<Map<Seq<char>, Seq<char>>>,
    pub v2_checkpoint: Option<LastCheckpointV2View>,
}

impl DeepView for LastCheckpointHint {
    type V = LastCheckpointHintView;

    open spec fn deep_view(&self) -> LastCheckpointHintView {
        LastCheckpointHintView {
            version: self.version,
            size: self.size,
            parts: self.parts,
            size_in_bytes: self.size_in_bytes,
            num_of_add_files: self.num_of_add_files,
            checkpoint_schema: self.checkpoint_schema.deep_view(),
            checksum: self.checksum.deep_view(),
            tags: self.tags.deep_view(),
            v2_checkpoint: self.v2_checkpoint.deep_view(),
        }
    }
}

impl Data for LastCheckpointHint {
    fn dup(&self) -> (res: Self) {
        LastCheckpointHint {
            version: self.version,
            size: self.size,
            parts: self.parts,
            size_in_bytes: self.size_in_bytes,
            num_of_add_files: self.num_of_add_files,
            checkpoint_schema: self.checkpoint_schema.dup(),
            checksum: self.checksum.dup(),
            tags: self.tags.dup(),
            v2_checkpoint: self.v2_checkpoint.dup(),
        }
    }

    fn same(&self, other: &Self) -> (res: bool) {
        self.version == other.version
            && self.size == other.size
            && self.parts == other.parts
            && self.size_in_bytes == other.size_in_bytes
            && self.num_of_add_files == other.num_of_add_files
            && self.checkpoint_schema.same(&other.checkpoint_schema)
            && self.checksum.same(&other.checksum)
            && self.tags.same(&other.tags)
            && self.v2_checkpoint.same(&other.v2_checkpoint)
    }
}

} // verus!
