//! The distribution of deleted-record counts over the files of a table.

use vstd::prelude::*;

use crate::crc::sums;
use crate::data::Data;
use crate::error::Error;
use crate::error::ErrorView;
use crate::text;
use crate::text::{around_i64, join, u64_text};

verus! {

/// A histogram of deleted-record counts across the files of a table. Each bin covers a range of
/// counts and holds the number of files whose count lies in it:
///
/// - bin 0: no deleted records
/// - bin 1: 1 to 9
/// - bin 2: 10 to 99
/// - bin 3: 100 to 999
/// - bin 4: 1,000 to 9,999
/// - bin 5: 10,000 to 99,999
/// - bin 6: 100,000 to 999,999
/// - bin 7: 1,000,000 to 9,999,999
/// - bin 8: 10,000,000 to 2,147,483,646
/// - bin 9: 2,147,483,647 and more
#[derive(Debug)]
pub struct DeletedRecordCountsHistogram {
    /// The number of files in each bin.
    pub deleted_record_counts: Vec<i64>,
}

/// The number of bins.
pub const NUM_BINS: usize = 10;

/// The smallest deleted-record count of a bin; each bin ends where the next begins.
pub open spec fn bin_floor(bin: int) -> int {
    if bin <= 0 {
        0
    } else if bin == 1 {
        1
    } else if bin == 2 {
        10
    } else if bin == 3 {
        100
    } else if bin == 4 {
        1_000
    } else if bin == 5 {
        10_000
    } else if bin == 6 {
        100_000
    } else if bin == 7 {
        1_000_000
    } else if bin == 8 {
        10_000_000
    } else {
        2_147_483_647
    }
}

/// Whether a deleted-record count belongs to a bin. A negative count belongs to the last one.
pub open spec fn in_bin(cardinality: int, bin: int) -> bool {
    if bin == 9 {
        cardinality < 0 || bin_floor(9) <= cardinality
    } else {
        0 <= bin < 9 && bin_floor(bin) <= cardinality < bin_floor(bin + 1)
    }
}

/// Every deleted-record count belongs to exactly one bin.
pub proof fn law_one_bin(cardinality: int, a: int, b: int)
    requires
        in_bin(cardinality, a),
        in_bin(cardinality, b),
    ensures
        a == b,
        0 <= a < NUM_BINS,
{
}

/// A larger count never belongs to a smaller bin.
pub proof fn law_bins_ascend(x: int, y: int, a: int, b: int)
    requires
        0 <= x <= y,
        in_bin(x, a),
        in_bin(y, b),
    ensures
        a <= b,
{
}

/// The bin that a deleted-record count belongs to.
pub fn deleted_record_count_bin(cardinality: i64) -> (res: usize)
    ensures
        res < NUM_BINS,
        in_bin(cardinality as int, res as int),
{
    if cardinality < 0 {
        9
    } else if cardinality == 0 {
        0
    } else if cardinality <= 9 {
        1
    } else if cardinality <= 99 {
        2
    } else if cardinality <= 999 {
        3
    } else if cardinality <= 9_999 {
        4
    } else if cardinality <= 99_999 {
        5
    } else if cardinality <= 999_999 {
        6
    } else if cardinality <= 9_999_999 {
        7
    } else if cardinality <= 2_147_483_646 {
        8
    } else {
        9
    }
}

/// The number of counts that belong to a bin.
pub open spec fn bin_count(cardinalities: Seq<i64>, bin: int) -> int
    decreases cardinalities.len(),
{
    if cardinalities.len() == 0 {
        0
    } else {
        bin_count(cardinalities.drop_last(), bin) + if in_bin(cardinalities.last() as int, bin) {
            1int
        } else {
            0int
        }
    }
}

/// The number of counts in each bin.
pub open spec fn bin_counts(cardinalities: Seq<i64>) -> Seq<i64> {
    Seq::new(NUM_BINS as nat, |bin: int| bin_count(cardinalities, bin) as i64)
}

/// A bin holds at most as many files as there are.
pub proof fn lemma_bin_count_bounds(cardinalities: Seq<i64>, bin: int)
    ensures
        0 <= bin_count(cardinalities, bin) <= cardinalities.len(),
    decreases cardinalities.len(),
{
    if cardinalities.len() > 0 {
        lemma_bin_count_bounds(cardinalities.drop_last(), bin);
    }
}

/// The bins together hold every file exactly once: the file counts add up to the number of files.
pub proof fn law_bins_hold_every_file(cardinalities: Seq<i64>)
    ensures
        bin_count(cardinalities, 0) + bin_count(cardinalities, 1) + bin_count(cardinalities, 2)
            + bin_count(cardinalities, 3) + bin_count(cardinalities, 4) + bin_count(
            cardinalities,
            5,
        ) + bin_count(cardinalities, 6) + bin_count(cardinalities, 7) + bin_count(cardinalities, 8)
            + bin_count(cardinalities, 9) == cardinalities.len(),
    decreases cardinalities.len(),
{
    if cardinalities.len() > 0 {
        law_bins_hold_every_file(cardinalities.drop_last());
    }
}

/// A histogram of some files has as many files in its bins as there are.
pub proof fn law_bin_counts_sum_to_files(cardinalities: Seq<i64>)
    requires
        cardinalities.len() <= i64::MAX,
    ensures
        deleted_counts_valid(bin_counts(cardinalities)),
        sums::sum(bin_counts(cardinalities)) == cardinalities.len(),
{
    let counts = bin_counts(cardinalities);
    assert forall|bin: int| 0 <= bin < NUM_BINS implies #[trigger] counts[bin] == bin_count(
        cardinalities,
        bin,
    ) && counts[bin] >= 0 by {
        lemma_bin_count_bounds(cardinalities, bin);
    }
    law_bins_hold_every_file(cardinalities);
    assert(counts.take(0) =~= Seq::empty());
    sums::lemma_sum_step(counts, 0);
    sums::lemma_sum_step(counts, 1);
    sums::lemma_sum_step(counts, 2);
    sums::lemma_sum_step(counts, 3);
    sums::lemma_sum_step(counts, 4);
    sums::lemma_sum_step(counts, 5);
    sums::lemma_sum_step(counts, 6);
    sums::lemma_sum_step(counts, 7);
    sums::lemma_sum_step(counts, 8);
    sums::lemma_sum_step(counts, 9);
    assert(counts.take(10) =~= counts);
}

/// Whether the bins are exactly as many as there are ranges, none with a negative file count.
pub open spec fn deleted_counts_valid(counts: Seq<i64>) -> bool {
    &&& counts.len() == NUM_BINS
    &&& forall|bin: int| 0 <= bin < counts.len() ==> #[trigger] counts[bin] >= 0
}

/// The error for the first negative file count, at `bin`.
pub open spec fn negative_deleted_count(counts: Seq<i64>, bin: int) -> ErrorView {
    ErrorView::Generic(
        "deleted-record-count histogram has negative file count "@ + text::int_text(
            counts[bin] as int,
        ) + " at bin "@ + text::int_text(bin),
    )
}

/// Whether `e` reports what is wrong with the bins: their number, or else the first negative file
/// count.
pub open spec fn reports_deleted_counts(counts: Seq<i64>, e: ErrorView) -> bool {
    if counts.len() != NUM_BINS {
        e == ErrorView::Generic(
            "deleted-record-count histogram must contain exactly 10 bins, got "@ + text::int_text(
                counts.len() as int,
            ),
        )
    } else {
        exists|bin: int|
            0 <= bin < counts.len() && (#[trigger] counts[bin]) < 0 && (forall|b: int|
                0 <= b < bin ==> #[trigger] counts[b] >= 0) && e == negative_deleted_count(
                counts,
                bin,
            )
    }
}

/// The mathematical value of [`DeletedRecordCountsHistogram`].
#[verifier::ext_equal]
pub struct DeletedRecordCountsHistogramView {
    pub deleted_record_counts: Seq<i64>,
}

impl DeepView for DeletedRecordCountsHistogram {
    type V = DeletedRecordCountsHistogramView;

    open spec fn deep_view(&self) -> DeletedRecordCountsHistogramView {
        DeletedRecordCountsHistogramView { deleted_record_counts: self.deleted_record_counts@ }
    }
}

impl Data for DeletedRecordCountsHistogram {
    fn dup(&self) -> (res: Self) {
        let deleted_record_counts = self.deleted_record_counts.dup();
        assert(deleted_record_counts@ =~= deleted_record_counts.deep_view());
        assert(self.deleted_record_counts@ =~= self.deleted_record_counts.deep_view());
        DeletedRecordCountsHistogram { deleted_record_counts }
    }

    fn same(&self, other: &Self) -> (res: bool) {
        assert(self.deleted_record_counts@ =~= self.deleted_record_counts.deep_view());
        assert(other.deleted_record_counts@ =~= other.deleted_record_counts.deep_view());
        self.deleted_record_counts.same(&other.deleted_record_counts)
    }
}

impl DeletedRecordCountsHistogram {
    /// The histogram with these bins.
    ///
    /// # Errors
    ///
    /// Unless there are exactly ten bins and no file count is negative.
    pub fn try_new(deleted_record_counts: Vec<i64>) -> (res: Result<Self, Error>)
        ensures
            match res {
                Ok(histogram) => deleted_counts_valid(deleted_record_counts@)
                    && histogram.deep_view().deleted_record_counts == deleted_record_counts@,
                Err(e) => !deleted_counts_valid(deleted_record_counts@) && reports_deleted_counts(
                    deleted_record_counts@,
                    e.deep_view(),
                ),
            },
    {
        let histogram = DeletedRecordCountsHistogram { deleted_record_counts };
        match histogram.validate() {
            Ok(()) => Ok(histogram),
            Err(e) => Err(e),
        }
    }

    /// Checks the number of bins and their file counts.
    pub fn validate(&self) -> (res: Result<(), Error>)
        ensures
            match res {
                Ok(()) => deleted_counts_valid(self.deep_view().deleted_record_counts),
                Err(e) => !deleted_counts_valid(self.deep_view().deleted_record_counts)
                    && reports_deleted_counts(
                    self.deep_view().deleted_record_counts,
                    e.deep_view(),
                ),
            },
    {
        let counts = &self.deleted_record_counts;
        if counts.len() != NUM_BINS {
            return Err(
                Error::Generic(
                    join(
                        "deleted-record-count histogram must contain exactly 10 bins, got ",
                        u64_text(counts.len() as u64).as_str(),
                    ),
                ),
            );
        }
        let mut bin: usize = 0;
        while bin < counts.len()
            invariant
                bin <= counts@.len(),
                counts@ == self.deep_view().deleted_record_counts,
                counts@.len() == NUM_BINS,
                forall|b: int| 0 <= b < bin ==> #[trigger] counts@[b] >= 0,
            decreases counts@.len() - bin,
        {
            if counts[bin] < 0 {
                let head = around_i64(
                    "deleted-record-count histogram has negative file count ",
                    counts[bin],
                    " at bin ",
                );
                let message = join(head.as_str(), u64_text(bin as u64).as_str());
                return Err(Error::Generic(message));
            }
            bin = bin + 1;
        }
        Ok(())
    }
}

} // verus!
