//! The log actions that a table snapshot is made of.

use vstd::prelude::*;
use vstd::string::*;

use crate::data::Data;
use crate::error::Error;
use crate::error::ErrorView;
use crate::string_map::StringMap;
use crate::text::join;

verus! {

/// The progress of one application, as its transaction identifier records it.
#[derive(Debug)]
pub struct SetTransaction {
    /// The application identifier.
    pub app_id: String,
    /// The application-specific version.
    pub version: i64,
    /// When the version was recorded, in milliseconds since the Unix epoch.
    pub last_updated: Option<i64>,
}

/// The mathematical value of [`SetTransaction`].
#[verifier::ext_equal]
pub struct SetTransactionView {
    pub app_id: Seq<char>,
    pub version: i64,
    pub last_updated: Option<i64>,
}

impl DeepView for SetTransaction {
    type V = SetTransactionView;

    open spec fn deep_view(&self) -> SetTransactionView {
        SetTransactionView {
            app_id: self.app_id.deep_view(),
            version: self.version,
            last_updated: self.last_updated,
        }
    }
}

impl Data for SetTransaction {
    fn dup(&self) -> (res: Self) {
        SetTransaction {
            app_id: self.app_id.dup(),
            version: self.version,
            last_updated: self.last_updated,
        }
    }

    fn same(&self, other: &Self) -> (res: bool) {
        self.app_id.same(&other.app_id)
            && self.version == other.version
            && self.last_updated == other.last_updated
    }
}

impl SetTransaction {
    /// The action with these fields.
    pub fn new(app_id: String, version: i64, last_updated: Option<i64>) -> (res: Self)
        ensures
            res.deep_view() == (SetTransactionView { app_id: app_id@, version, last_updated }),
    {
        SetTransaction { app_id, version, last_updated }
    }
}

/// The configuration of one metadata domain.
#[derive(Debug)]
pub struct DomainMetadata {
    /// The domain identifier.
    pub domain: String,
    /// The configuration payload.
    pub configuration: String,
    /// Whether the action removes the domain (a tombstone).
    pub removed: bool,
}

/// The mathematical value of [`DomainMetadata`].
#[verifier::ext_equal]
pub struct DomainMetadataView {
    pub domain: Seq<char>,
    pub configuration: Seq<char>,
    pub removed: bool,
}

impl DeepView for DomainMetadata {
    type V = DomainMetadataView;

    open spec fn deep_view(&self) -> DomainMetadataView {
        DomainMetadataView {
            domain: self.domain.deep_view(),
            configuration: self.configuration.deep_view(),
            removed: self.removed,
        }
    }
}

impl Data for DomainMetadata {
    fn dup(&self) -> (res: Self) {
        DomainMetadata {
            domain: self.domain.dup(),
            configuration: self.configuration.dup(),
            removed: self.removed,
        }
    }

    fn same(&self, other: &Self) -> (res: bool) {
        self.domain.same(&other.domain)
            && self.configuration.same(&other.configuration)
            && self.removed == other.removed
    }
}

impl DomainMetadata {
    /// An action that sets the domain.
    pub fn new(domain: String, configuration: String) -> (res: Self)
        ensures
            res.deep_view() == (DomainMetadataView {
                domain: domain@,
                configuration: configuration@,
                removed: false,
            }),
    {
        DomainMetadata { domain, configuration, removed: false }
    }

    /// An action that removes the domain.
    pub fn remove(domain: String, configuration: String) -> (res: Self)
        ensures
            res.deep_view() == (DomainMetadataView {
                domain: domain@,
                configuration: configuration@,
                removed: true,
            }),
    {
        DomainMetadata { domain, configuration, removed: true }
    }
}

/// Where a deletion vector is stored.
#[derive(Debug, Clone, Copy, PartialEq, Eq, Structural)]
pub enum DeletionVectorStorageType {
    /// In a file named relative to the table root.
    PersistedRelative,
    /// In the action itself.
    Inline,
    /// In a file named by an absolute path.
    PersistedAbsolute,
}

impl DeletionVectorStorageType {
    /// The name of the storage type in the log.
    pub open spec fn name(self) -> Seq<char> {
        match self {
            DeletionVectorStorageType::PersistedRelative => "u"@,
            DeletionVectorStorageType::Inline => "i"@,
            DeletionVectorStorageType::PersistedAbsolute => "p"@,
        }
    }

    /// The storage type that a name in the log stands for.
    pub open spec fn named(name: Seq<char>) -> Option<DeletionVectorStorageType> {
        if name == "u"@ {
            Some(DeletionVectorStorageType::PersistedRelative)
        } else if name == "i"@ {
            Some(DeletionVectorStorageType::Inline)
        } else if name == "p"@ {
            Some(DeletionVectorStorageType::PersistedAbsolute)
        } else {
            None
        }
    }

    /// A storage type is the one that its name stands for.
    pub proof fn lemma_named(self)
        ensures
            DeletionVectorStorageType::named(self.name()) == Some(self),
    {
        reveal_strlit("u");
        reveal_strlit("i");
        reveal_strlit("p");
        assert("u"@[0] != "i"@[0] && "u"@[0] != "p"@[0] && "i"@[0] != "p"@[0]);
    }

    /// The error for a name that stands for no storage type.
    pub open spec fn unknown_name(name: Seq<char>) -> ErrorView {
        ErrorView::InternalError("Unknown storage type: "@ + name)
    }

    /// The name of the storage type in the log.
    pub fn to_name(&self) -> (res: String)
        ensures
            res@ == self.name(),
    {
        match self {
            DeletionVectorStorageType::PersistedRelative => String::from_str("u"),
            DeletionVectorStorageType::Inline => String::from_str("i"),
            DeletionVectorStorageType::PersistedAbsolute => String::from_str("p"),
        }
    }

    /// The storage type that a name in the log stands for.
    pub fn parse(name: &String) -> (res: Result<Self, Error>)
        ensures
            match res {
                Ok(storage_type) => DeletionVectorStorageType::named(name@) == Some(storage_type),
                Err(e) => DeletionVectorStorageType::named(name@) is None && e.deep_view()
                    == DeletionVectorStorageType::unknown_name(name@),
            },
    {
        if name.same(&String::from_str("u")) {
            Ok(DeletionVectorStorageType::PersistedRelative)
        } else if name.same(&String::from_str("i")) {
            Ok(DeletionVectorStorageType::Inline)
        } else if name.same(&String::from_str("p")) {
            Ok(DeletionVectorStorageType::PersistedAbsolute)
        } else {
            Err(Error::InternalError(join("Unknown storage type: ", name.as_str())))
        }
    }
}

/// A deletion vector of one data file.
#[derive(Debug)]
pub struct DeletionVectorDescriptor {
    /// Where the vector is stored.
    pub storage_type: DeletionVectorStorageType,
    /// The path of the file, or the vector itself.
    pub path_or_inline_dv: String,
    /// Where in the file the vector starts.
    pub offset: Option<i32>,
    /// The size of the serialized vector.
    pub size_in_bytes: i32,
    /// The number of rows that the vector deletes.
    pub cardinality: i64,
}

/// The mathematical value of [`DeletionVectorDescriptor`].
#[verifier::ext_equal]
pub struct DeletionVectorDescriptorView {
    pub storage_type: DeletionVectorStorageType,
    pub path_or_inline_dv: Seq<char>,
    pub offset: Option<i32>,
    pub size_in_bytes: i32,
    pub cardinality: i64,
}

impl DeepView for DeletionVectorDescriptor {
    type V = DeletionVectorDescriptorView;

    open spec fn deep_view(&self) -> DeletionVectorDescriptorView {
        DeletionVectorDescriptorView {
            storage_type: self.storage_type,
            path_or_inline_dv: self.path_or_inline_dv.deep_view(),
            offset: self.offset,
            size_in_bytes: self.size_in_bytes,
            cardinality: self.cardinality,
        }
    }
}

impl Data for DeletionVectorDescriptor {
    fn dup(&self) -> (res: Self) {
        DeletionVectorDescriptor {
            storage_type: self.storage_type,
            path_or_inline_dv: self.path_or_inline_dv.dup(),
            offset: self.offset,
            size_in_bytes: self.size_in_bytes,
            cardinality: self.cardinality,
        }
    }

    fn same(&self, other: &Self) -> (res: bool) {
        self.storage_type == other.storage_type
            && self.path_or_inline_dv.same(&other.path_or_inline_dv)
            && self.offset == other.offset
            && self.size_in_bytes == other.size_in_bytes
            && self.cardinality == other.cardinality
    }
}

/// A live data file.
#[derive(Debug)]
pub struct Add {
    /// The path of the file.
    pub path: String,
    /// The value of each partition column; a column whose value is null has no entry.
    pub partition_values: StringMap<String>,
    /// The size of the file in bytes.
    pub size: i64,
    /// When the file was created, in milliseconds since the Unix epoch.
    pub modification_time: i64,
    /// Whether the file holds new data rather than a rearrangement.
    pub data_change: bool,
    /// Statistics on the data, as a JSON document.
    pub stats: Option<String>,
    /// Metadata on the file.
    pub tags: Option<StringMap<Option<String>>>,
    /// The rows of the file that are deleted.
    pub deletion_vector: Option<DeletionVectorDescriptor>,
    /// The row id of the first row.
    pub base_row_id: Option<i64>,
    /// The first commit version with this path.
    pub default_row_commit_version: Option<i64>,
    /// The clustering implementation that wrote the file.
    pub clustering_provider: Option<String>,
}

/// The mathematical value of [`Add`].
#[verifier::ext_equal]
pub struct AddView {
    pub path: Seq<char>,
    pub partition_values: Map<Seq<char>, Seq<char>>,
    pub size: i64,
    pub modification_time: i64,
    pub data_change: bool,
    pub stats: Option<Seq<char>>,
    pub tags: Option<Map<Seq<char>, Option<Seq<char>>>>,
    pub deletion_vector: Option<DeletionVectorDescriptorView>,
    pub base_row_id: Option<i64>,
    pub default_row_commit_version: Option<i64>,
    pub clustering_provider: Option<Seq<char>>,
}

impl DeepView for Add {
    type V = AddView;

    open spec fn deep_view(&self) -> AddView {
        AddView {
            path: self.path.deep_view(),
            partition_values: self.partition_values.deep_view(),
            size: self.size,
            modification_time: self.modification_time,
            data_change: self.data_change,
            stats: self.stats.deep_view(),
            tags: self.tags.deep_view(),
            deletion_vector: self.deletion_vector.deep_view(),
            base_row_id: self.base_row_id,
            default_row_commit_version: self.default_row_commit_version,
            clustering_provider: self.clustering_provider.deep_view(),
        }
    }
}

impl Data for Add {
    fn dup(&self) -> (res: Self) {
        Add {
            path: self.path.dup(),
            partition_values: self.partition_values.dup(),
            size: self.size,
            modification_time: self.modification_time,
            data_change: self.data_change,
            stats: self.stats.dup(),
            tags: self.tags.dup(),
            deletion_vector: self.deletion_vector.dup(),
            base_row_id: self.base_row_id,
            default_row_commit_version: self.default_row_commit_version,
            clustering_provider: self.clustering_provider.dup(),
        }
    }

    fn same(&self, other: &Self) -> (res: bool) {
        self.path.same(&other.path)
            && self.partition_values.same(&other.partition_values)
            && self.size == other.size
            && self.modification_time == other.modification_time
            && self.data_change == other.data_change
            && self.stats.same(&other.stats)
            && self.tags.same(&other.tags)
            && self.deletion_vector.same(&other.deletion_vector)
            && self.base_row_id == other.base_row_id
            && self.default_row_commit_version == other.default_row_commit_version
            && self.clustering_provider.same(&other.clustering_provider)
    }
}

/// The protocol versions and features that a table requires of its clients.
#[derive(Debug)]
pub struct Protocol {
    /// The reader version that a client needs.
    pub min_reader_version: i32,
    /// The writer version that a client needs.
    pub min_writer_version: i32,
    /// The features that a reader must support.
    pub reader_features: Option<Vec<String>>,
    /// The features that a writer must support.
    pub writer_features: Option<Vec<String>>,
}

/// The mathematical value of [`Protocol`].
#[verifier::ext_equal]
pub struct ProtocolView {
    pub min_reader_version: i32,
    pub min_writer_version: i32,
    pub reader_features: Option<Seq<Seq<char>>>,
    pub writer_features: Option<Seq<Seq<char>>>,
}

impl DeepView for Protocol {
    type V = ProtocolView;

    open spec fn deep_view(&self) -> ProtocolView {
        ProtocolView {
            min_reader_version: self.min_reader_version,
            min_writer_version: self.min_writer_version,
            reader_features: self.reader_features.deep_view(),
            writer_features: self.writer_features.deep_view(),
        }
    }
}

impl Data for Protocol {
    fn dup(&self) -> (res: Self) {
        Protocol {
            min_reader_version: self.min_reader_version,
            min_writer_version: self.min_writer_version,
            reader_features: self.reader_features.dup(),
            writer_features: self.writer_features.dup(),
        }
    }

    fn same(&self, other: &Self) -> (res: bool) {
        self.min_reader_version == other.min_reader_version
            && self.min_writer_version == other.min_writer_version
            && self.reader_features.same(&other.reader_features)
            && self.writer_features.same(&other.writer_features)
    }
}

impl ProtocolView {
    /// Whether the writer features list `feature`; every feature of a table is listed there.
    pub open spec fn has_table_feature(self, feature: Seq<char>) -> bool {
        match self.writer_features {
            Some(features) => features.contains(feature),
            None => false,
        }
    }
}

impl Protocol {
    /// Whether the writer features list `feature`.
    pub fn has_table_feature(&self, feature: &str) -> (res: bool)
        ensures
            res == self.deep_view().has_table_feature(feature@),
    {
        match &self.writer_features {
            None => false,
            Some(features) => lists(features, feature),
        }
    }
}

/// Whether `list` has `text` among its elements.
fn lists(list: &Vec<String>, text: &str) -> (res: bool)
    ensures
        res == list.deep_view().contains(text@),
{
    let wanted = String::from_str(text);
    let mut i: usize = 0;
    while i < list.len()
        invariant
            i <= list@.len(),
            wanted@ == text@,
            forall|j: int| 0 <= j < i ==> (#[trigger] list.deep_view()[j]) != text@,
        decreases list@.len() - i,
    {
        if list[i].same(&wanted) {
            assert(list.deep_view()[i as int] == text@);
            return true;
        }
        i = i + 1;
    }
    false
}

impl ProtocolView {
    /// The protocol of no table: both versions zero, no feature lists.
    pub open spec fn none() -> ProtocolView {
        ProtocolView {
            min_reader_version: 0,
            min_writer_version: 0,
            reader_features: None,
            writer_features: None,
        }
    }
}

impl Default for Protocol {
    /// The protocol of no table: both versions zero, no feature lists.
    fn default() -> (res: Self)
        ensures
            res.deep_view() == ProtocolView::none(),
    {
        Protocol {
            min_reader_version: 0,
            min_writer_version: 0,
            reader_features: None,
            writer_features: None,
        }
    }
}

/// The identity, schema and configuration of a table.
#[derive(Debug)]
pub struct Metadata {
    /// The table identifier.
    pub id: String,
    /// The table name.
    pub name: Option<String>,
    /// The table description.
    pub description: Option<String>,
    /// The provider of the data format.
    pub format_provider: String,
    /// The options of the data format.
    pub format_options: StringMap<String>,
    /// The schema, as a JSON document.
    pub schema_string: String,
    /// The names of the partition columns.
    pub partition_columns: Vec<String>,
    /// When the metadata was created, in milliseconds since the Unix epoch.
    pub created_time: Option<i64>,
    /// The table properties.
    pub configuration: StringMap<String>,
}

/// The mathematical value of [`Metadata`].
#[verifier::ext_equal]
pub struct MetadataView {
    pub id: Seq<char>,
    pub name: Option<Seq<char>>,
    pub description: Option<Seq<char>>,
    pub format_provider: Seq<char>,
    pub format_options: Map<Seq<char>, Seq<char>>,
    pub schema_string: Seq<char>,
    pub partition_columns: Seq<Seq<char>>,
    pub created_time: Option<i64>,
    pub configuration: Map<Seq<char>, Seq<char>>,
}

impl DeepView for Metadata {
    type V = MetadataView;

    open spec fn deep_view(&self) -> MetadataView {
        MetadataView {
            id: self.id.deep_view(),
            name: self.name.deep_view(),
            description: self.description.deep_view(),
            format_provider: self.format_provider.deep_view(),
            format_options: self.format_options.deep_view(),
            schema_string: self.schema_string.deep_view(),
            partition_columns: self.partition_columns.deep_view(),
            created_time: self.created_time,
            configuration: self.configuration.deep_view(),
        }
    }
}

impl Data for Metadata {
    fn dup(&self) -> (res: Self) {
        Metadata {
            id: self.id.dup(),
            name: self.name.dup(),
            description: self.description.dup(),
            format_provider: self.format_provider.dup(),
            format_options: self.format_options.dup(),
            schema_string: self.schema_string.dup(),
            partition_columns: self.partition_columns.dup(),
            created_time: self.created_time,
            configuration: self.configuration.dup(),
        }
    }

    fn same(&self, other: &Self) -> (res: bool) {
        self.id.same(&other.id)
            && self.name.same(&other.name)
            && self.description.same(&other.description)
            && self.format_provider.same(&other.format_provider)
            && self.format_options.same(&other.format_options)
            && self.schema_string.same(&other.schema_string)
            && self.partition_columns.same(&other.partition_columns)
            && self.created_time == other.created_time
            && self.configuration.same(&other.configuration)
    }
}

impl MetadataView {
    /// Metadata with every field empty; data files are Parquet.
    pub open spec fn empty() -> MetadataView {
        MetadataView {
            id: Seq::empty(),
            name: None,
            description: None,
            format_provider: "parquet"@,
            format_options: Map::empty(),
            schema_string: Seq::empty(),
            partition_columns: Seq::empty(),
            created_time: None,
            configuration: Map::empty(),
        }
    }

    /// Whether the table properties enable in-commit timestamps.
    pub open spec fn enables_in_commit_timestamps(self) -> bool {
        &&& self.configuration.contains_key("delta.enableInCommitTimestamps"@)
        &&& self.configuration["delta.enableInCommitTimestamps"@] == "true"@
    }
}

impl Metadata {
    /// Whether the table properties enable in-commit timestamps.
    pub fn enables_in_commit_timestamps(&self) -> (res: bool)
        ensures
            res == self.deep_view().enables_in_commit_timestamps(),
    {
        let key = String::from_str("delta.enableInCommitTimestamps");
        match self.configuration.get(&key) {
            Some(value) => value.same(&String::from_str("true")),
            None => false,
        }
    }
}

impl Default for Metadata {
    /// Metadata with every field empty; data files are Parquet.
    fn default() -> (res: Self)
        ensures
            res.deep_view() == MetadataView::empty(),
    {
        let partition_columns: Vec<String> = Vec::new();
        assert(partition_columns.deep_view() =~= Seq::empty());
        Metadata {
            id: String::new(),
            name: None,
            description: None,
            format_provider: String::from_str("parquet"),
            format_options: StringMap::new(),
            schema_string: String::new(),
            partition_columns,
            created_time: None,
            configuration: StringMap::new(),
        }
    }
}

} // verus!
