//! What a checksum knows of files, transactions and domains.

use vstd::prelude::*;

use crate::actions::{DomainMetadata, DomainMetadataView, SetTransaction, SetTransactionView};
use crate::crc::file_stats::{FileStats, FileStatsView};
use crate::data::Data;
use crate::error::Error;
use crate::error::ErrorView;
use crate::string_map;
use crate::string_map::StringMap;
use crate::text::join;

verus! {

/// What is known of the file-level statistics.
#[derive(Debug)]
pub enum FileStatsState {
    /// The statistics are known.
    Complete(FileStats),
    /// The statistics cannot be trusted.
    Indeterminate,
}

/// The mathematical value of [`FileStatsState`].
#[verifier::ext_equal]
pub enum FileStatsStateView {
    Complete(FileStatsView),
    Indeterminate,
}

impl DeepView for FileStatsState {
    type V = FileStatsStateView;

    open spec fn deep_view(&self) -> FileStatsStateView {
        match self {
            FileStatsState::Complete(stats) => FileStatsStateView::Complete(stats.deep_view()),
            FileStatsState::Indeterminate => FileStatsStateView::Indeterminate,
        }
    }
}

impl Data for FileStatsState {
    fn dup(&self) -> (res: Self) {
        match self {
            FileStatsState::Complete(value) => FileStatsState::Complete(value.dup()),
            FileStatsState::Indeterminate => FileStatsState::Indeterminate,
        }
    }

    fn same(&self, other: &Self) -> (res: bool) {
        match (self, other) {
            (FileStatsState::Complete(a), FileStatsState::Complete(b)) => a.same(b),
            (FileStatsState::Indeterminate, FileStatsState::Indeterminate) => true,
            _ => false,
        }
    }
}

impl Default for FileStatsState {
    /// Complete statistics of a table without files.
    fn default() -> (res: Self)
        ensures
            res.deep_view() == FileStatsStateView::Complete(
                FileStatsView { num_files: 0, table_size_bytes: 0, file_size_histogram: None },
            ),
    {
        FileStatsState::Complete(
            FileStats { num_files: 0, table_size_bytes: 0, file_size_histogram: None },
        )
    }
}

impl FileStatsState {
    /// The statistics, where they are known.
    pub fn file_stats(&self) -> (res: Option<&FileStats>)
        ensures
            match self.deep_view() {
                FileStatsStateView::Complete(stats) => res matches Some(s) && s.deep_view()
                    == stats,
                FileStatsStateView::Indeterminate => res is None,
            },
    {
        match self {
            FileStatsState::Complete(stats) => Some(stats),
            FileStatsState::Indeterminate => None,
        }
    }
}

/// What is known of the application transactions.
#[derive(Debug)]
pub enum SetTransactionState {
    /// Every transaction, by application id; an application without an entry has none.
    Complete(StringMap<SetTransaction>),
    /// Some transactions, by application id; nothing is known of an application without an entry.
    Partial(StringMap<SetTransaction>),
}

/// The mathematical value of [`SetTransactionState`].
#[verifier::ext_equal]
pub enum SetTransactionStateView {
    Complete(Map<Seq<char>, SetTransactionView>),
    Partial(Map<Seq<char>, SetTransactionView>),
}

impl DeepView for SetTransactionState {
    type V = SetTransactionStateView;

    open spec fn deep_view(&self) -> SetTransactionStateView {
        match self {
            SetTransactionState::Complete(m) => SetTransactionStateView::Complete(m.deep_view()),
            SetTransactionState::Partial(m) => SetTransactionStateView::Partial(m.deep_view()),
        }
    }
}

/// The transactions with their application ids as keys.
pub open spec fn keyed_transactions(values: Seq<SetTransactionView>) -> Seq<
    (Seq<char>, SetTransactionView),
> {
    values.map_values(|t: SetTransactionView| (t.app_id, t))
}

/// The error for a second transaction of one application.
pub open spec fn duplicate_transaction(app_id: Seq<char>) -> ErrorView {
    ErrorView::Generic("CRC contains a duplicate transaction for application id "@ + app_id)
}

/// Whether `e` reports the first transaction whose application has one already.
pub open spec fn reports_duplicate_transaction(
    values: Seq<SetTransactionView>,
    e: ErrorView,
) -> bool {
    let pairs = keyed_transactions(values);
    exists|i: int|
        0 <= i < pairs.len() && string_map::keys_distinct(pairs.take(i)) && string_map::has_key(
            pairs.take(i),
            (#[trigger] pairs[i]).0,
        ) && e == duplicate_transaction(pairs[i].0)
}

/// Whether every key is the application id of its transaction.
pub open spec fn transactions_keyed(m: Map<Seq<char>, SetTransactionView>) -> bool {
    forall|k: Seq<char>| #[trigger] m.contains_key(k) ==> m[k].app_id == k
}

/// The error for a key that is not the application id of its transaction.
pub open spec fn transaction_key_mismatch(key: Seq<char>, app_id: Seq<char>) -> ErrorView {
    ErrorView::Generic(
        "CRC transaction map key "@ + key + " does not match action application id "@ + app_id,
    )
}

impl SetTransactionStateView {
    /// The known transactions.
    pub open spec fn entries(self) -> Map<Seq<char>, SetTransactionView> {
        match self {
            SetTransactionStateView::Complete(m) => m,
            SetTransactionStateView::Partial(m) => m,
        }
    }

    /// Whether `e` reports an entry whose key is not the application id of its transaction.
    pub open spec fn reports_key(self, e: ErrorView) -> bool {
        exists|k: Seq<char>| #[trigger]
            self.entries().contains_key(k) && self.entries()[k].app_id != k && e
                == transaction_key_mismatch(k, self.entries()[k].app_id)
    }
}

impl Data for SetTransactionState {
    fn dup(&self) -> (res: Self) {
        match self {
            SetTransactionState::Complete(value) => SetTransactionState::Complete(value.dup()),
            SetTransactionState::Partial(value) => SetTransactionState::Partial(value.dup()),
        }
    }

    fn same(&self, other: &Self) -> (res: bool) {
        match (self, other) {
            (SetTransactionState::Complete(a), SetTransactionState::Complete(b)) => a.same(b),
            (SetTransactionState::Partial(a), SetTransactionState::Partial(b)) => a.same(b),
            _ => false,
        }
    }
}

impl Default for SetTransactionState {
    /// No knowledge of any transaction.
    fn default() -> (res: Self)
        ensures
            res.deep_view() == SetTransactionStateView::Partial(Map::empty()),
    {
        SetTransactionState::Partial(StringMap::new())
    }
}

impl SetTransactionState {
    /// The map of a complete state.
    pub fn expect_complete(&self) -> (res: &StringMap<SetTransaction>)
        requires
            self.deep_view() is Complete,
        ensures
            self.deep_view() == SetTransactionStateView::Complete(res.deep_view()),
    {
        match self {
            SetTransactionState::Complete(m) => m,
            SetTransactionState::Partial(m) => m,
        }
    }

    /// The state that knows exactly these transactions.
    ///
    /// # Errors
    ///
    /// Where an application has two transactions.
    pub fn try_complete(values: Vec<SetTransaction>) -> (res: Result<Self, Error>)
        ensures
            ({
                let pairs = keyed_transactions(values.deep_view());
                match res {
                    Ok(state) => string_map::keys_distinct(pairs) && state.deep_view()
                        == SetTransactionStateView::Complete(string_map::pairs_map(pairs)),
                    Err(e) => !string_map::keys_distinct(pairs) && reports_duplicate_transaction(
                        values.deep_view(),
                        e.deep_view(),
                    ),
                }
            }),
    {
        let ghost pairs = keyed_transactions(values.deep_view());
        let mut m: StringMap<SetTransaction> = StringMap::new();
        let mut i: usize = 0;
        assert(pairs.take(0) =~= Seq::empty());
        while i < values.len()
            invariant
                i <= values@.len(),
                pairs == keyed_transactions(values.deep_view()),
                pairs.len() == values@.len(),
                string_map::keys_distinct(pairs.take(i as int)),
                m.deep_view() == string_map::pairs_map(pairs.take(i as int)),
            decreases values@.len() - i,
        {
            let ghost seen = pairs.take(i as int);
            let app_id = values[i].app_id.dup();
            proof {
                assert(pairs[i as int] == (app_id@, values@[i as int].deep_view()));
                string_map::lemma_pairs_map_keys(seen, app_id@);
                string_map::lemma_take_extends(pairs, i as int);
            }
            if m.contains_key(&app_id) {
                return Err(
                    Error::Generic(
                        join(
                            "CRC contains a duplicate transaction for application id ",
                            app_id.as_str(),
                        ),
                    ),
                );
            }
            m.insert(app_id, values[i].dup());
            i = i + 1;
        }
        assert(pairs.take(pairs.len() as int) =~= pairs);
        Ok(SetTransactionState::Complete(m))
    }
}

/// Checks that every key is the application id of its transaction.
pub fn validate_set_transaction_state(state: &SetTransactionState) -> (res: Result<(), Error>)
    ensures
        match res {
            Ok(()) => transactions_keyed(state.deep_view().entries()),
            Err(e) => !transactions_keyed(state.deep_view().entries())
                && state.deep_view().reports_key(e.deep_view()),
        },
{
    let values = match state {
        SetTransactionState::Complete(values) => values,
        SetTransactionState::Partial(values) => values,
    };
    let ghost m = state.deep_view().entries();
    let n = values.len();
    let mut i: usize = 0;
    while i < n
        invariant
            i <= n,
            n == values.pairs().len(),
            m == values.deep_view(),
            m == state.deep_view().entries(),
            forall|j: int|
                0 <= j < i ==> (#[trigger] values.pairs()[j]).1.app_id == values.pairs()[j].0,
        decreases n - i,
    {
        let key = values.key_at(i);
        let transaction = values.value_at(i);
        if !key.same(&transaction.app_id) {
            let head = join("CRC transaction map key ", key.as_str());
            let head = join(head.as_str(), " does not match action application id ");
            let message = join(head.as_str(), transaction.app_id.as_str());
            assert(m.contains_key(key@));
            return Err(Error::Generic(message));
        }
        i = i + 1;
    }
    proof {
        assert forall|k: Seq<char>| #[trigger] m.contains_key(k) implies m[k].app_id == k by {
            string_map::lemma_pairs_map_keys(values.pairs(), k);
            let j = choose|j: int|
                0 <= j < values.pairs().len() && (#[trigger] values.pairs()[j]).0 == k;
            string_map::lemma_pairs_map_value(values.pairs(), j);
        }
    }
    Ok(())
}

/// What is known of the metadata domains.
#[derive(Debug)]
pub enum DomainMetadataState {
    /// Every live domain, by its name; a domain without an entry does not exist.
    Complete(StringMap<DomainMetadata>),
    /// Some live domains, by name; nothing is known of a domain without an entry.
    Partial(StringMap<DomainMetadata>),
}

/// The mathematical value of [`DomainMetadataState`].
#[verifier::ext_equal]
pub enum DomainMetadataStateView {
    Complete(Map<Seq<char>, DomainMetadataView>),
    Partial(Map<Seq<char>, DomainMetadataView>),
}

impl DeepView for DomainMetadataState {
    type V = DomainMetadataStateView;

    open spec fn deep_view(&self) -> DomainMetadataStateView {
        match self {
            DomainMetadataState::Complete(m) => DomainMetadataStateView::Complete(m.deep_view()),
            DomainMetadataState::Partial(m) => DomainMetadataStateView::Partial(m.deep_view()),
        }
    }
}

/// The domain actions with their domains as keys.
pub open spec fn keyed_domains(values: Seq<DomainMetadataView>) -> Seq<
    (Seq<char>, DomainMetadataView),
> {
    values.map_values(|d: DomainMetadataView| (d.domain, d))
}

/// Whether no action removes its domain.
pub open spec fn all_live(values: Seq<DomainMetadataView>) -> bool {
    forall|i: int| 0 <= i < values.len() ==> !(#[trigger] values[i]).removed
}

/// The error for a second action of one domain.
pub open spec fn duplicate_domain(domain: Seq<char>) -> ErrorView {
    ErrorView::Generic("CRC contains duplicate domain metadata for "@ + domain)
}

/// The error for an action that removes its domain.
pub open spec fn tombstone(state_name: Seq<char>, domain: Seq<char>) -> ErrorView {
    ErrorView::Generic(
        state_name + " CRC state contains a domain metadata tombstone for "@ + domain,
    )
}

/// Whether `e` reports the first action that a complete state cannot hold: one that removes its
/// domain, or else a second one of its domain.
pub open spec fn reports_domain_action(values: Seq<DomainMetadataView>, e: ErrorView) -> bool {
    let pairs = keyed_domains(values);
    exists|i: int|
        0 <= i < values.len() && string_map::keys_distinct(pairs.take(i)) && all_live(
            values.take(i),
        ) && (if (#[trigger] values[i]).removed {
            e == tombstone("complete"@, values[i].domain)
        } else {
            string_map::has_key(pairs.take(i), values[i].domain) && e == duplicate_domain(
                values[i].domain,
            )
        })
}

/// Whether every key is the domain of its action and no action removes its domain.
pub open spec fn domains_keyed_and_live(m: Map<Seq<char>, DomainMetadataView>) -> bool {
    forall|k: Seq<char>| #[trigger] m.contains_key(k) ==> m[k].domain == k && !m[k].removed
}

/// The error for a key that is not the domain of its action.
pub open spec fn domain_key_mismatch(key: Seq<char>, domain: Seq<char>) -> ErrorView {
    ErrorView::Generic(
        "CRC domain metadata map key "@ + key + " does not match action domain "@ + domain,
    )
}

impl DomainMetadataStateView {
    /// The known domains.
    pub open spec fn entries(self) -> Map<Seq<char>, DomainMetadataView> {
        match self {
            DomainMetadataStateView::Complete(m) => m,
            DomainMetadataStateView::Partial(m) => m,
        }
    }

    /// The name of the kind of state.
    pub open spec fn name(self) -> Seq<char> {
        match self {
            DomainMetadataStateView::Complete(_) => "complete"@,
            DomainMetadataStateView::Partial(_) => "partial"@,
        }
    }

    /// Whether `e` reports an entry that the state cannot hold.
    pub open spec fn reports_entry(self, e: ErrorView) -> bool {
        exists|k: Seq<char>| #[trigger]
            self.entries().contains_key(k) && (if self.entries()[k].domain != k {
                e == domain_key_mismatch(k, self.entries()[k].domain)
            } else {
                self.entries()[k].removed && e == tombstone(self.name(), k)
            })
    }
}

impl Data for DomainMetadataState {
    fn dup(&self) -> (res: Self) {
        match self {
            DomainMetadataState::Complete(value) => DomainMetadataState::Complete(value.dup()),
            DomainMetadataState::Partial(value) => DomainMetadataState::Partial(value.dup()),
        }
    }

    fn same(&self, other: &Self) -> (res: bool) {
        match (self, other) {
            (DomainMetadataState::Complete(a), DomainMetadataState::Complete(b)) => a.same(b),
            (DomainMetadataState::Partial(a), DomainMetadataState::Partial(b)) => a.same(b),
            _ => false,
        }
    }
}

impl Default for DomainMetadataState {
    /// No knowledge of any domain.
    fn default() -> (res: Self)
        ensures
            res.deep_view() == DomainMetadataStateView::Partial(Map::empty()),
    {
        DomainMetadataState::Partial(StringMap::new())
    }
}

impl DomainMetadataState {
    /// The map of a complete state.
    pub fn expect_complete(&self) -> (res: &StringMap<DomainMetadata>)
        requires
            self.deep_view() is Complete,
        ensures
            self.deep_view() == DomainMetadataStateView::Complete(res.deep_view()),
    {
        match self {
            DomainMetadataState::Complete(m) => m,
            DomainMetadataState::Partial(m) => m,
        }
    }

    /// The state that knows exactly these domains.
    ///
    /// # Errors
    ///
    /// Where a domain has two actions, or an action removes its domain.
    pub fn try_complete(values: Vec<DomainMetadata>) -> (res: Result<Self, Error>)
        ensures
            ({
                let pairs = keyed_domains(values.deep_view());
                match res {
                    Ok(state) => string_map::keys_distinct(pairs) && all_live(values.deep_view())
                        && state.deep_view() == DomainMetadataStateView::Complete(
                        string_map::pairs_map(pairs),
                    ),
                    Err(e) => !(string_map::keys_distinct(pairs) && all_live(values.deep_view()))
                        && reports_domain_action(values.deep_view(), e.deep_view()),
                }
            }),
    {
        let ghost views = values.deep_view();
        let ghost pairs = keyed_domains(views);
        let mut m: StringMap<DomainMetadata> = StringMap::new();
        let mut i: usize = 0;
        assert(pairs.take(0) =~= Seq::empty());
        while i < values.len()
            invariant
                i <= values@.len(),
                views == values.deep_view(),
                views.len() == values@.len(),
                pairs == keyed_domains(views),
                pairs.len() == values@.len(),
                string_map::keys_distinct(pairs.take(i as int)),
                all_live(views.take(i as int)),
                m.deep_view() == string_map::pairs_map(pairs.take(i as int)),
            decreases values@.len() - i,
        {
            let ghost seen = pairs.take(i as int);
            let domain = values[i].domain.dup();
            proof {
                assert(views[i as int] == values@[i as int].deep_view());
                assert(pairs[i as int] == (domain@, views[i as int]));
                string_map::lemma_pairs_map_keys(seen, domain@);
                string_map::lemma_take_extends(pairs, i as int);
            }
            if values[i].removed {
                let message = join(
                    "complete CRC state contains a domain metadata tombstone for ",
                    domain.as_str(),
                );
                proof {
                    reveal_strlit("complete");
                    reveal_strlit(" CRC state contains a domain metadata tombstone for ");
                    reveal_strlit("complete CRC state contains a domain metadata tombstone for ");
                    assert(message@ =~= "complete"@
                        + " CRC state contains a domain metadata tombstone for "@ + domain@);
                    assert(!all_live(views));
                }
                return Err(Error::Generic(message));
            }
            if m.contains_key(&domain) {
                return Err(
                    Error::Generic(
                        join("CRC contains duplicate domain metadata for ", domain.as_str()),
                    ),
                );
            }
            m.insert(domain, values[i].dup());
            proof {
                assert forall|j: int| 0 <= j < i + 1 implies !(#[trigger] views.take(i + 1)[j]).removed by {
                    if j < i {
                        assert(views.take(i as int)[j] == views[j]);
                    }
                }
            }
            i = i + 1;
        }
        assert(pairs.take(pairs.len() as int) =~= pairs);
        assert(views.take(views.len() as int) =~= views);
        Ok(DomainMetadataState::Complete(m))
    }
}

/// Checks that every key is the domain of its action and that no action removes its domain.
pub fn validate_domain_metadata_state(state: &DomainMetadataState) -> (res: Result<(), Error>)
    ensures
        match res {
            Ok(()) => domains_keyed_and_live(state.deep_view().entries()),
            Err(e) => !domains_keyed_and_live(state.deep_view().entries())
                && state.deep_view().reports_entry(e.deep_view()),
        },
{
    let (values, state_name) = match state {
        DomainMetadataState::Complete(values) => (values, "complete"),
        DomainMetadataState::Partial(values) => (values, "partial"),
    };
    let ghost m = state.deep_view().entries();
    let n = values.len();
    let mut i: usize = 0;
    while i < n
        invariant
            i <= n,
            n == values.pairs().len(),
            m == values.deep_view(),
            m == state.deep_view().entries(),
            state_name@ == state.deep_view().name(),
            forall|j: int|
                0 <= j < i ==> (#[trigger] values.pairs()[j]).1.domain == values.pairs()[j].0
                    && !values.pairs()[j].1.removed,
        decreases n - i,
    {
        let key = values.key_at(i);
        let action = values.value_at(i);
        if !key.same(&action.domain) {
            let head = join("CRC domain metadata map key ", key.as_str());
            let head = join(head.as_str(), " does not match action domain ");
            let message = join(head.as_str(), action.domain.as_str());
            assert(m.contains_key(key@));
            return Err(Error::Generic(message));
        }
        if action.removed {
            let head = join(
                state_name,
                " CRC state contains a domain metadata tombstone for ",
            );
            let message = join(head.as_str(), key.as_str());
            assert(m.contains_key(key@));
            return Err(Error::Generic(message));
        }
        i = i + 1;
    }
    proof {
        assert forall|k: Seq<char>| #[trigger] m.contains_key(k) implies m[k].domain == k
            && !m[k].removed by {
            string_map::lemma_pairs_map_keys(values.pairs(), k);
            let j = choose|j: int|
                0 <= j < values.pairs().len() && (#[trigger] values.pairs()[j]).0 == k;
            string_map::lemma_pairs_map_value(values.pairs(), j);
        }
    }
    Ok(())
}

} // verus!
