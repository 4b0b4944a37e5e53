//! The order in which a checksum lists its files does not matter.

use vstd::prelude::*;

use crate::actions::AddView;
use crate::crc::checksum;
use crate::crc::checksum::CrcView;
use crate::crc::deleted_records;
use crate::crc::file_size_histogram;
use crate::crc::state::FileStatsStateView;
use crate::crc::sums;

verus! {

/// The total of `f` over the files.
spec fn total(files: Seq<AddView>, f: spec_fn(AddView) -> int) -> int
    decreases files.len(),
{
    if files.len() == 0 {
        0
    } else {
        total(files.drop_last(), f) + f(files.last())
    }
}

/// Taking one file out lowers the total by what the file adds.
proof fn lemma_total_remove(files: Seq<AddView>, f: spec_fn(AddView) -> int, i: int)
    requires
        0 <= i < files.len(),
    ensures
        total(files, f) == total(files.remove(i), f) + f(files[i]),
    decreases files.len(),
{
    let last = files.len() - 1;
    if i == last {
        assert(files.remove(i) =~= files.drop_last());
    } else {
        lemma_total_remove(files.drop_last(), f, i);
        assert(files.remove(i).drop_last() =~= files.drop_last().remove(i));
        assert(files.remove(i).last() == files.last());
    }
}

/// The same files in another order have the same total.
proof fn lemma_total_reordered(a: Seq<AddView>, b: Seq<AddView>, f: spec_fn(AddView) -> int)
    requires
        a.to_multiset() == b.to_multiset(),
    ensures
        a.len() == b.len(),
        total(a, f) == total(b, f),
    decreases a.len(),
{
    a.to_multiset_ensures();
    b.to_multiset_ensures();
    assert(a.len() == a.to_multiset().len());
    assert(b.len() == b.to_multiset().len());
    if a.len() > 0 {
        let last = a.len() - 1;
        assert(a.contains(a[last]));
        assert(b.to_multiset().count(a[last]) > 0);
        assert(b.contains(a[last]));
        let i = choose|i: int| 0 <= i < b.len() && b[i] == a[last];
        assert(a.drop_last() =~= a.remove(last));
        assert(a.remove(last).to_multiset() =~= a.to_multiset().remove(a[last]));
        assert(b.remove(i).to_multiset() =~= b.to_multiset().remove(b[i]));
        lemma_total_reordered(a.drop_last(), b.remove(i), f);
        lemma_total_remove(b, f, i);
    }
}

/// A file is in the list whatever the order.
proof fn lemma_same_files(a: Seq<AddView>, b: Seq<AddView>, i: int) -> (j: int)
    requires
        a.to_multiset() == b.to_multiset(),
        0 <= i < a.len(),
    ensures
        0 <= j < b.len(),
        b[j] == a[i],
{
    a.to_multiset_ensures();
    b.to_multiset_ensures();
    assert(a.contains(a[i]));
    assert(b.to_multiset().count(a[i]) > 0);
    assert(b.contains(a[i]));
    choose|j: int| 0 <= j < b.len() && b[j] == a[i]
}

spec fn size_of() -> spec_fn(AddView) -> int {
    |add: AddView| add.size as int
}

spec fn deleted_of() -> spec_fn(AddView) -> int {
    |add: AddView| checksum::deleted_records_of(add) as int
}

spec fn vector_of() -> spec_fn(AddView) -> int {
    |add: AddView|
        if add.deletion_vector is Some {
            1int
        } else {
            0int
        }
}

spec fn deleted_in(bin: int) -> spec_fn(AddView) -> int {
    |add: AddView|
        if deleted_records::in_bin(checksum::deleted_records_of(add) as int, bin) {
            1int
        } else {
            0int
        }
}

spec fn sized_in(boundaries: Seq<i64>, bin: int) -> spec_fn(AddView) -> int {
    |add: AddView|
        if file_size_histogram::in_size_bin(boundaries, bin, add.size as int) {
            1int
        } else {
            0int
        }
}

spec fn bytes_in(boundaries: Seq<i64>, bin: int) -> spec_fn(AddView) -> int {
    |add: AddView|
        if file_size_histogram::in_size_bin(boundaries, bin, add.size as int) {
            add.size as int
        } else {
            0int
        }
}

/// The sums and counts of the files are totals over them.
proof fn lemma_file_totals(files: Seq<AddView>)
    ensures
        sums::sum(checksum::file_sizes(files)) == total(files, size_of()),
        sums::sum(checksum::deleted_record_counts(files)) == total(files, deleted_of()),
        checksum::deletion_vector_count(files) == total(files, vector_of()),
    decreases files.len(),
{
    if files.len() > 0 {
        let rest = files.drop_last();
        lemma_file_totals(rest);
        assert(checksum::file_sizes(files).drop_last() =~= checksum::file_sizes(rest));
        assert(checksum::deleted_record_counts(files).drop_last()
            =~= checksum::deleted_record_counts(rest));
    }
}

/// The number of files in a deleted-record bin is a total over the files.
proof fn lemma_deleted_bin_total(files: Seq<AddView>, bin: int)
    ensures
        deleted_records::bin_count(checksum::deleted_record_counts(files), bin) == total(
            files,
            deleted_in(bin),
        ),
    decreases files.len(),
{
    if files.len() > 0 {
        let rest = files.drop_last();
        lemma_deleted_bin_total(rest, bin);
        assert(checksum::deleted_record_counts(files).drop_last()
            =~= checksum::deleted_record_counts(rest));
    }
}

/// The number and the bytes of the files in a size bin are totals over the files.
proof fn lemma_size_bin_totals(boundaries: Seq<i64>, files: Seq<AddView>, bin: int)
    ensures
        file_size_histogram::size_bin_count(boundaries, bin, checksum::file_sizes(files)) == total(
            files,
            sized_in(boundaries, bin),
        ),
        file_size_histogram::size_bin_bytes(boundaries, bin, checksum::file_sizes(files)) == total(
            files,
            bytes_in(boundaries, bin),
        ),
    decreases files.len(),
{
    if files.len() > 0 {
        let rest = files.drop_last();
        lemma_size_bin_totals(boundaries, rest, bin);
        assert(checksum::file_sizes(files).drop_last() =~= checksum::file_sizes(rest));
    }
}

/// Files that agree with what is recorded of them do so in any order.
proof fn lemma_reordered_files_valid(crc: CrcView, a: Seq<AddView>, b: Seq<AddView>)
    requires
        a.to_multiset() == b.to_multiset(),
        crc.files_valid(a),
    ensures
        crc.files_valid(b),
{
    let (sizes_a, sizes_b) = (checksum::file_sizes(a), checksum::file_sizes(b));
    let (deleted_a, deleted_b) = (
        checksum::deleted_record_counts(a),
        checksum::deleted_record_counts(b),
    );
    lemma_total_reordered(a, b, size_of());
    lemma_total_reordered(a, b, deleted_of());
    lemma_total_reordered(a, b, vector_of());
    lemma_file_totals(a);
    lemma_file_totals(b);
    assert forall|i: int| 0 <= i < sizes_b.len() implies #[trigger] sizes_b[i] >= 0 by {
        let j = lemma_same_files(b, a, i);
        assert(sizes_a[j] >= 0);
    }
    assert forall|i: int| 0 <= i < deleted_b.len() implies #[trigger] deleted_b[i] >= 0 by {
        let j = lemma_same_files(b, a, i);
        assert(deleted_a[j] >= 0);
    }
    assert forall|bin: int| true implies #[trigger] deleted_records::bin_count(deleted_a, bin)
        == deleted_records::bin_count(deleted_b, bin) by {
        lemma_deleted_bin_total(a, bin);
        lemma_deleted_bin_total(b, bin);
        lemma_total_reordered(a, b, deleted_in(bin));
    }
    assert(deleted_records::bin_counts(deleted_a) =~= deleted_records::bin_counts(deleted_b));
    assert forall|bounds: Seq<i64>, bin: int|
        true implies #[trigger] file_size_histogram::size_bin_count(bounds, bin, sizes_b)
        == file_size_histogram::size_bin_count(bounds, bin, sizes_a)
        && file_size_histogram::size_bin_bytes(bounds, bin, sizes_b)
        == file_size_histogram::size_bin_bytes(bounds, bin, sizes_a) by {
        lemma_size_bin_totals(bounds, a, bin);
        lemma_size_bin_totals(bounds, b, bin);
        lemma_total_reordered(a, b, sized_in(bounds, bin));
        lemma_total_reordered(a, b, bytes_in(bounds, bin));
    }
    if let FileStatsStateView::Complete(stats) = crc.file_stats_state {
        if let Some(h) = stats.file_size_histogram {
            assert forall|bin: int| 0 <= bin < h.sorted_bin_boundaries.len() implies (
            #[trigger] h.file_counts[bin]) == file_size_histogram::size_bin_count(
                h.sorted_bin_boundaries,
                bin,
                sizes_b,
            ) && h.total_bytes[bin] == file_size_histogram::size_bin_bytes(
                h.sorted_bin_boundaries,
                bin,
                sizes_b,
            ) by {
                assert(h.file_counts[bin] == file_size_histogram::size_bin_count(
                    h.sorted_bin_boundaries,
                    bin,
                    sizes_a,
                ));
            }
        }
    }
}

/// Whether the files agree with what is recorded of them, and so whether the state is consistent,
/// does not depend on their order.
pub proof fn law_file_order_does_not_matter(crc: CrcView, a: Seq<AddView>, b: Seq<AddView>)
    requires
        a.to_multiset() == b.to_multiset(),
    ensures
        crc.files_valid(a) == crc.files_valid(b),
        (CrcView { all_files: Some(a), ..crc }).valid() == (CrcView {
            all_files: Some(b),
            ..crc
        }).valid(),
{
    let (with_a, with_b) = (
        CrcView { all_files: Some(a), ..crc },
        CrcView { all_files: Some(b), ..crc },
    );
    if crc.files_valid(a) {
        lemma_reordered_files_valid(crc, a, b);
    }
    if crc.files_valid(b) {
        lemma_reordered_files_valid(crc, b, a);
    }
    assert(with_a.files_valid(a) == crc.files_valid(a));
    assert(with_b.files_valid(b) == crc.files_valid(b));
}

} // verus!
