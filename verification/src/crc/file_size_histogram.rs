//! The distribution of file sizes over the files of a table.

use vstd::prelude::*;
use vstd::string::*;

use crate::crc::sums;
use crate::data::Data;
use crate::error::Error;
use crate::error::ErrorView;
use crate::text;
use crate::text::{join, i64_text, u64_text};

verus! {

/// A file-size histogram as it was read, before any check.
#[derive(Debug)]
pub struct FileSizeHistogramRaw {
    /// The lower boundary of every bin.
    pub sorted_bin_boundaries: Vec<i64>,
    /// The number of files in every bin.
    pub file_counts: Vec<i64>,
    /// The total size of the files in every bin.
    pub total_bytes: Vec<i64>,
}

/// The mathematical value of a file-size histogram.
#[verifier::ext_equal]
pub struct FileSizeHistogramView {
    pub sorted_bin_boundaries: Seq<i64>,
    pub file_counts: Seq<i64>,
    pub total_bytes: Seq<i64>,
}

impl DeepView for FileSizeHistogramRaw {
    type V = FileSizeHistogramView;

    open spec fn deep_view(&self) -> FileSizeHistogramView {
        FileSizeHistogramView {
            sorted_bin_boundaries: self.sorted_bin_boundaries@,
            file_counts: self.file_counts@,
            total_bytes: self.total_bytes@,
        }
    }
}

/// Whether every boundary is larger than those before it.
pub open spec fn ascends(boundaries: Seq<i64>) -> bool {
    forall|i: int, j: int|
        0 <= i < j < boundaries.len() ==> #[trigger] boundaries[i] < #[trigger] boundaries[j]
}

/// Whether a file size belongs to a bin: from the bin's boundary up to the next one, and without
/// limit in the last bin.
pub open spec fn in_size_bin(boundaries: Seq<i64>, bin: int, size: int) -> bool {
    &&& 0 <= bin < boundaries.len()
    &&& boundaries[bin] <= size
    &&& bin + 1 < boundaries.len() ==> size < boundaries[bin + 1]
}

/// The number of file sizes that belong to a bin.
pub open spec fn size_bin_count(boundaries: Seq<i64>, bin: int, sizes: Seq<i64>) -> int
    decreases sizes.len(),
{
    if sizes.len() == 0 {
        0
    } else {
        size_bin_count(boundaries, bin, sizes.drop_last()) + if in_size_bin(
            boundaries,
            bin,
            sizes.last() as int,
        ) {
            1int
        } else {
            0int
        }
    }
}

/// The total of the file sizes that belong to a bin.
pub open spec fn size_bin_bytes(boundaries: Seq<i64>, bin: int, sizes: Seq<i64>) -> int
    decreases sizes.len(),
{
    if sizes.len() == 0 {
        0
    } else {
        size_bin_bytes(boundaries, bin, sizes.drop_last()) + if in_size_bin(
            boundaries,
            bin,
            sizes.last() as int,
        ) {
            sizes.last() as int
        } else {
            0int
        }
    }
}

impl FileSizeHistogramView {
    /// Whether the bins are usable: at least two, the first from zero, boundaries ascending, and
    /// both counters given for every bin.
    pub open spec fn well_formed(self) -> bool {
        &&& self.sorted_bin_boundaries.len() >= 2
        &&& self.sorted_bin_boundaries[0] == 0
        &&& self.file_counts.len() == self.sorted_bin_boundaries.len()
        &&& self.total_bytes.len() == self.sorted_bin_boundaries.len()
        &&& ascends(self.sorted_bin_boundaries)
    }

    /// The error for bins that are not usable.
    pub open spec fn malformed(self) -> ErrorView {
        if self.sorted_bin_boundaries.len() < 2 {
            ErrorView::Generic(
                "sorted_bin_boundaries must have at least 2 elements, got "@ + text::int_text(
                    self.sorted_bin_boundaries.len() as int,
                ),
            )
        } else if self.sorted_bin_boundaries[0] != 0 {
            ErrorView::Generic(
                "sorted_bin_boundaries must start with 0, got "@ + text::int_text(
                    self.sorted_bin_boundaries[0] as int,
                ),
            )
        } else if self.file_counts.len() != self.sorted_bin_boundaries.len()
            || self.total_bytes.len() != self.sorted_bin_boundaries.len() {
            ErrorView::Generic(
                "sorted_bin_boundaries, file_counts and total_bytes must have the same length"@,
            )
        } else {
            ErrorView::Generic("sorted_bin_boundaries must be strictly ascending"@)
        }
    }

    /// Whether the bins hold exactly the files with these sizes.
    pub open spec fn holds(self, sizes: Seq<i64>) -> bool {
        forall|bin: int|
            0 <= bin < self.sorted_bin_boundaries.len() ==> (#[trigger] self.file_counts[bin])
                == size_bin_count(self.sorted_bin_boundaries, bin, sizes) && self.total_bytes[bin]
                == size_bin_bytes(self.sorted_bin_boundaries, bin, sizes)
    }

    /// Whether a bin has a negative counter.
    pub open spec fn negative_at(self, bin: int) -> bool {
        self.file_counts[bin] < 0 || self.total_bytes[bin] < 0
    }

    /// The number of bins for which both counters are given.
    pub open spec fn counted_bins(self) -> nat {
        if self.file_counts.len() < self.total_bytes.len() {
            self.file_counts.len()
        } else {
            self.total_bytes.len()
        }
    }

    /// Whether no bin has a negative counter.
    pub open spec fn counts_non_negative(self) -> bool {
        forall|bin: int| 0 <= bin < self.counted_bins() ==> !#[trigger] self.negative_at(bin)
    }
}

/// A file size that is not negative belongs to exactly one bin.
pub proof fn law_one_size_bin(h: FileSizeHistogramView, size: int)
    requires
        h.well_formed(),
        0 <= size,
    ensures
        exists|bin: int| #[trigger] in_size_bin(h.sorted_bin_boundaries, bin, size),
        forall|a: int, b: int|
            #![trigger in_size_bin(h.sorted_bin_boundaries, a, size), in_size_bin(
                h.sorted_bin_boundaries,
                b,
                size,
            )]
            in_size_bin(h.sorted_bin_boundaries, a, size) && in_size_bin(
                h.sorted_bin_boundaries,
                b,
                size,
            ) ==> a == b,
{
    lemma_size_bin_exists(h.sorted_bin_boundaries, size, h.sorted_bin_boundaries.len() as int);
    assert forall|a: int, b: int|
        #![trigger in_size_bin(h.sorted_bin_boundaries, a, size), in_size_bin(
                h.sorted_bin_boundaries,
                b,
                size,
            )]
        in_size_bin(h.sorted_bin_boundaries, a, size) && in_size_bin(
            h.sorted_bin_boundaries,
            b,
            size,
        ) implies a == b by {
        lemma_size_bin_unique(h.sorted_bin_boundaries, size, a, b);
    }
}

proof fn lemma_size_bin_unique(boundaries: Seq<i64>, size: int, a: int, b: int)
    requires
        ascends(boundaries),
        in_size_bin(boundaries, a, size),
        in_size_bin(boundaries, b, size),
    ensures
        a == b,
{
    if a < b {
        assert(boundaries[a + 1] <= boundaries[b]);
    }
    if b < a {
        assert(boundaries[b + 1] <= boundaries[a]);
    }
}

proof fn lemma_size_bin_exists(boundaries: Seq<i64>, size: int, above: int)
    requires
        1 <= above <= boundaries.len(),
        boundaries[0] <= size,
        above < boundaries.len() ==> size < boundaries[above],
    ensures
        exists|bin: int| #[trigger] in_size_bin(boundaries, bin, size),
    decreases above,
{
    if boundaries[above - 1] <= size {
        assert(in_size_bin(boundaries, above - 1, size));
    } else {
        lemma_size_bin_exists(boundaries, size, above - 1);
    }
}

/// One bin's share of files that are not of negative size.
proof fn lemma_bin_share(boundaries: Seq<i64>, bin: int, sizes: Seq<i64>)
    requires
        forall|i: int| 0 <= i < sizes.len() ==> #[trigger] sizes[i] >= 0,
    ensures
        0 <= size_bin_count(boundaries, bin, sizes) <= sizes.len(),
        0 <= size_bin_bytes(boundaries, bin, sizes) <= sums::sum(sizes),
    decreases sizes.len(),
{
    if sizes.len() > 0 {
        let rest = sizes.drop_last();
        assert forall|i: int| 0 <= i < rest.len() implies #[trigger] rest[i] >= 0 by {
            assert(sizes[i] >= 0);
        }
        lemma_bin_share(boundaries, bin, rest);
        assert(sizes[sizes.len() - 1] >= 0);
    }
}

/// The total of `f` over the first `n` bins.
spec fn bins_total(f: spec_fn(int) -> int, n: int) -> int
    decreases n,
{
    if n <= 0 {
        0
    } else {
        bins_total(f, n - 1) + f(n - 1)
    }
}

/// Raising one bin raises the total by as much.
proof fn lemma_bins_total_raise(
    f: spec_fn(int) -> int,
    g: spec_fn(int) -> int,
    n: int,
    bin: int,
    by: int,
)
    requires
        0 <= n,
        forall|i: int| 0 <= i < n ==> #[trigger] g(i) == f(i) + (if i == bin { by } else { 0 }),
    ensures
        bins_total(g, n) == bins_total(f, n) + (if 0 <= bin < n { by } else { 0 }),
    decreases n,
{
    if n > 0 {
        lemma_bins_total_raise(f, g, n - 1, bin, by);
        assert(g(n - 1) == f(n - 1) + (if n - 1 == bin { by } else { 0 }));
    }
}

/// The total over the bins of a list is the sum of the list.
proof fn lemma_bins_total_sum(values: Seq<i64>, f: spec_fn(int) -> int, n: int)
    requires
        0 <= n <= values.len(),
        forall|i: int| 0 <= i < n ==> #[trigger] f(i) == values[i],
    ensures
        bins_total(f, n) == sums::sum(values.take(n)),
    decreases n,
{
    if n > 0 {
        lemma_bins_total_sum(values, f, n - 1);
        sums::lemma_sum_step(values, n - 1);
        assert(f(n - 1) == values[n - 1]);
    } else {
        assert(values.take(0) =~= Seq::empty());
    }
}

proof fn lemma_bin_totals(boundaries: Seq<i64>, sizes: Seq<i64>)
    requires
        boundaries.len() > 0,
        boundaries[0] == 0,
        ascends(boundaries),
        forall|i: int| 0 <= i < sizes.len() ==> #[trigger] sizes[i] >= 0,
    ensures
        bins_total(|bin: int| size_bin_count(boundaries, bin, sizes), boundaries.len() as int)
            == sizes.len(),
        bins_total(|bin: int| size_bin_bytes(boundaries, bin, sizes), boundaries.len() as int)
            == sums::sum(sizes),
    decreases sizes.len(),
{
    let n = boundaries.len() as int;
    let counts = |bin: int| size_bin_count(boundaries, bin, sizes);
    let bytes = |bin: int| size_bin_bytes(boundaries, bin, sizes);
    if sizes.len() == 0 {
        lemma_bins_total_zero(counts, n);
        lemma_bins_total_zero(bytes, n);
    } else {
        let rest = sizes.drop_last();
        let size = sizes[sizes.len() - 1] as int;
        assert forall|i: int| 0 <= i < rest.len() implies #[trigger] rest[i] >= 0 by {
            assert(sizes[i] >= 0);
        }
        lemma_bin_totals(boundaries, rest);
        lemma_size_bin_exists(boundaries, size, n);
        let bin = choose|bin: int| #[trigger] in_size_bin(boundaries, bin, size);
        assert forall|b: int| in_size_bin(boundaries, b, size) implies b == bin by {
            lemma_size_bin_unique(boundaries, size, b, bin);
        }
        lemma_bins_total_raise(
            |b: int| size_bin_count(boundaries, b, rest),
            counts,
            n,
            bin,
            1,
        );
        lemma_bins_total_raise(
            |b: int| size_bin_bytes(boundaries, b, rest),
            bytes,
            n,
            bin,
            size,
        );
    }
}

proof fn lemma_bins_total_zero(f: spec_fn(int) -> int, n: int)
    requires
        0 <= n,
        forall|i: int| 0 <= i < n ==> #[trigger] f(i) == 0,
    ensures
        bins_total(f, n) == 0,
    decreases n,
{
    if n > 0 {
        lemma_bins_total_zero(f, n - 1);
        assert(f(n - 1) == 0);
    }
}

/// Bins that hold exactly some files count each of them once: the file counts add up to their
/// number and the byte totals to their total size.
pub proof fn law_size_bins_hold_every_file(h: FileSizeHistogramView, sizes: Seq<i64>)
    requires
        h.well_formed(),
        h.holds(sizes),
        forall|i: int| 0 <= i < sizes.len() ==> #[trigger] sizes[i] >= 0,
    ensures
        sums::sum(h.file_counts) == sizes.len(),
        sums::sum(h.total_bytes) == sums::sum(sizes),
{
    let bounds = h.sorted_bin_boundaries;
    let n = bounds.len() as int;
    let counts = |bin: int| size_bin_count(bounds, bin, sizes);
    let bytes = |bin: int| size_bin_bytes(bounds, bin, sizes);
    lemma_bin_totals(bounds, sizes);
    assert forall|i: int| 0 <= i < n implies #[trigger] counts(i) == h.file_counts[i] by {}
    assert forall|i: int| 0 <= i < n implies #[trigger] bytes(i) == h.total_bytes[i] by {
        assert(h.file_counts[i] == size_bin_count(bounds, i, sizes));
    }
    lemma_bins_total_sum(h.file_counts, counts, n);
    lemma_bins_total_sum(h.total_bytes, bytes, n);
    assert(h.file_counts.take(n) =~= h.file_counts);
    assert(h.total_bytes.take(n) =~= h.total_bytes);
}

/// A validated file-size histogram: at least two bins, the first from zero, boundaries ascending,
/// and both counters given for every bin.
#[derive(Debug)]
pub struct FileSizeHistogram {
    sorted_bin_boundaries: Vec<i64>,
    file_counts: Vec<i64>,
    total_bytes: Vec<i64>,
}

impl DeepView for FileSizeHistogram {
    type V = FileSizeHistogramView;

    closed spec fn deep_view(&self) -> FileSizeHistogramView {
        FileSizeHistogramView {
            sorted_bin_boundaries: self.sorted_bin_boundaries@,
            file_counts: self.file_counts@,
            total_bytes: self.total_bytes@,
        }
    }
}

impl Data for FileSizeHistogram {
    fn dup(&self) -> (res: Self) {
        proof {
            use_type_invariant(self);
        }
        let sorted_bin_boundaries = self.sorted_bin_boundaries.dup();
        let file_counts = self.file_counts.dup();
        let total_bytes = self.total_bytes.dup();
        proof {
            lemma_plain(sorted_bin_boundaries);
            lemma_plain(file_counts);
            lemma_plain(total_bytes);
            lemma_plain(self.sorted_bin_boundaries);
            lemma_plain(self.file_counts);
            lemma_plain(self.total_bytes);
        }
        FileSizeHistogram { sorted_bin_boundaries, file_counts, total_bytes }
    }

    fn same(&self, other: &Self) -> (res: bool) {
        proof {
            lemma_plain(self.sorted_bin_boundaries);
            lemma_plain(self.file_counts);
            lemma_plain(self.total_bytes);
            lemma_plain(other.sorted_bin_boundaries);
            lemma_plain(other.file_counts);
            lemma_plain(other.total_bytes);
        }
        self.sorted_bin_boundaries.same(&other.sorted_bin_boundaries) && self.file_counts.same(
            &other.file_counts,
        ) && self.total_bytes.same(&other.total_bytes)
    }
}

/// The value of a list of integers is the list itself.
pub proof fn lemma_plain(values: Vec<i64>)
    ensures
        values.deep_view() == values@,
{
    assert(values.deep_view() =~= values@);
}

impl FileSizeHistogram {
    #[verifier::type_invariant]
    spec fn bins_well_formed(&self) -> bool {
        self.deep_view().well_formed()
    }

    /// The histogram with these bins.
    ///
    /// # Errors
    ///
    /// Unless there are at least two bins, the first from zero, with ascending boundaries and as
    /// many file counts and byte totals as boundaries.
    pub fn try_new(
        sorted_bin_boundaries: Vec<i64>,
        file_counts: Vec<i64>,
        total_bytes: Vec<i64>,
    ) -> (res: Result<Self, Error>)
        ensures
            ({
                let view = FileSizeHistogramView {
                    sorted_bin_boundaries: sorted_bin_boundaries@,
                    file_counts: file_counts@,
                    total_bytes: total_bytes@,
                };
                match res {
                    Ok(histogram) => view.well_formed() && histogram.deep_view() == view,
                    Err(e) => !view.well_formed() && e.deep_view() == view.malformed(),
                }
            }),
    {
        if sorted_bin_boundaries.len() < 2 {
            return Err(
                Error::Generic(
                    join(
                        "sorted_bin_boundaries must have at least 2 elements, got ",
                        u64_text(sorted_bin_boundaries.len() as u64).as_str(),
                    ),
                ),
            );
        }
        if sorted_bin_boundaries[0] != 0 {
            return Err(
                Error::Generic(
                    join(
                        "sorted_bin_boundaries must start with 0, got ",
                        i64_text(sorted_bin_boundaries[0]).as_str(),
                    ),
                ),
            );
        }
        if file_counts.len() != sorted_bin_boundaries.len() || total_bytes.len()
            != sorted_bin_boundaries.len() {
            return Err(
                Error::Generic(
                    String::from_str(
                        "sorted_bin_boundaries, file_counts and total_bytes must have the same length",
                    ),
                ),
            );
        }
        let mut i: usize = 1;
        while i < sorted_bin_boundaries.len()
            invariant
                2 <= sorted_bin_boundaries@.len(),
                sorted_bin_boundaries@[0] == 0,
                file_counts@.len() == sorted_bin_boundaries@.len(),
                total_bytes@.len() == sorted_bin_boundaries@.len(),
                1 <= i <= sorted_bin_boundaries@.len(),
                forall|a: int, b: int|
                    0 <= a < b < i ==> #[trigger] sorted_bin_boundaries@[a]
                        < #[trigger] sorted_bin_boundaries@[b],
            decreases sorted_bin_boundaries@.len() - i,
        {
            if sorted_bin_boundaries[i - 1] >= sorted_bin_boundaries[i] {
                assert(!ascends(sorted_bin_boundaries@));
                return Err(
                    Error::Generic(
                        String::from_str("sorted_bin_boundaries must be strictly ascending"),
                    ),
                );
            }
            i = i + 1;
        }
        Ok(FileSizeHistogram { sorted_bin_boundaries, file_counts, total_bytes })
    }

    /// The lower boundary of every bin.
    pub fn sorted_bin_boundaries(&self) -> (res: &Vec<i64>)
        ensures
            res@ == self.deep_view().sorted_bin_boundaries,
            self.deep_view().well_formed(),
    {
        proof {
            use_type_invariant(self);
        }
        &self.sorted_bin_boundaries
    }

    /// The number of files in every bin.
    pub fn file_counts(&self) -> (res: &Vec<i64>)
        ensures
            res@ == self.deep_view().file_counts,
    {
        &self.file_counts
    }

    /// The total size of the files in every bin.
    pub fn total_bytes(&self) -> (res: &Vec<i64>)
        ensures
            res@ == self.deep_view().total_bytes,
    {
        &self.total_bytes
    }

    /// The bin that a file size belongs to.
    fn bin_index(&self, size: i64) -> (res: usize)
        requires
            0 <= size,
        ensures
            in_size_bin(self.deep_view().sorted_bin_boundaries, res as int, size as int),
    {
        proof {
            use_type_invariant(self);
        }
        let boundaries = &self.sorted_bin_boundaries;
        let mut low: usize = 0;
        let mut high: usize = boundaries.len();
        while low + 1 < high
            invariant
                low < high <= boundaries@.len(),
                boundaries@ == self.deep_view().sorted_bin_boundaries,
                ascends(boundaries@),
                boundaries@[low as int] <= size,
                high < boundaries@.len() ==> size < boundaries@[high as int],
            decreases high - low,
        {
            let mid: usize = low + (high - low) / 2;
            if boundaries[mid] <= size {
                low = mid;
            } else {
                high = mid;
            }
        }
        low
    }

    /// Checks that the bins hold exactly the files with these sizes.
    ///
    /// # Errors
    ///
    /// Where a size is negative, their number or total is too large to count, or the bins hold
    /// other files.
    pub fn validate_file_sizes(&self, sizes: &Vec<i64>) -> (res: Result<(), Error>)
        ensures
            match res {
                Ok(()) => sizes_countable(sizes@) && self.deep_view().holds(sizes@),
                Err(e) => if sizes_countable(sizes@) {
                    !self.deep_view().holds(sizes@) && e.deep_view() == files_mismatch()
                } else {
                    reports_sizes(sizes@, e.deep_view())
                },
            },
    {
        if let Err(e) = check_sizes(sizes) {
            return Err(e);
        }
        proof {
            use_type_invariant(self);
        }
        let ghost bounds = self.deep_view().sorted_bin_boundaries;
        let bins = self.sorted_bin_boundaries.len();
        let mut counts: Vec<i64> = vec![0; bins];
        let mut bytes: Vec<i64> = vec![0; bins];
        let mut i: usize = 0;
        assert(sizes@.take(0) =~= Seq::empty());
        while i < sizes.len()
            invariant
                i <= sizes@.len() <= i64::MAX,
                bounds == self.deep_view().sorted_bin_boundaries,
                bins == bounds.len(),
                ascends(bounds),
                counts@.len() == bins,
                bytes@.len() == bins,
                forall|k: int| 0 <= k < sizes@.len() ==> #[trigger] sizes@[k] >= 0,
                sums::sum(sizes@) <= i64::MAX,
                forall|bin: int|
                    0 <= bin < bins ==> (#[trigger] counts@[bin]) == size_bin_count(
                        bounds,
                        bin,
                        sizes@.take(i as int),
                    ),
                forall|bin: int|
                    0 <= bin < bins ==> (#[trigger] bytes@[bin]) == size_bin_bytes(
                        bounds,
                        bin,
                        sizes@.take(i as int),
                    ),
            decreases sizes@.len() - i,
        {
            let size = sizes[i];
            let bin = self.bin_index(size);
            let ghost seen = sizes@.take(i as int);
            let ghost next = sizes@.take(i + 1);
            proof {
                assert(next.drop_last() =~= seen);
                assert(next.last() == size);
                lemma_bin_share(bounds, bin as int, seen);
                sums::lemma_sum_step(sizes@, i as int);
                sums::lemma_prefix_sum_grows(sizes@, i + 1, sizes@.len() as int);
                assert(sizes@.take(sizes@.len() as int) =~= sizes@);
                assert forall|b: int| 0 <= b < bins implies size_bin_count(bounds, b, next)
                    == size_bin_count(bounds, b, seen) + (if b == bin {
                    1int
                } else {
                    0int
                }) && size_bin_bytes(bounds, b, next) == size_bin_bytes(bounds, b, seen) + (if b
                    == bin {
                    size as int
                } else {
                    0int
                }) by {
                    if in_size_bin(bounds, b, size as int) {
                        lemma_size_bin_unique(bounds, size as int, b, bin as int);
                    }
                }
            }
            counts.set(bin, counts[bin] + 1);
            bytes.set(bin, bytes[bin] + size);
            i = i + 1;
        }
        assert(sizes@.take(sizes@.len() as int) =~= sizes@);
        let mut bin: usize = 0;
        while bin < bins
            invariant
                bin <= bins,
                sizes_countable(sizes@),
                bounds == self.deep_view().sorted_bin_boundaries,
                self.deep_view().well_formed(),
                bins == bounds.len(),
                counts@.len() == bins,
                bytes@.len() == bins,
                self.deep_view().file_counts == self.file_counts@,
                self.deep_view().total_bytes == self.total_bytes@,
                forall|b: int|
                    0 <= b < bins ==> (#[trigger] counts@[b]) == size_bin_count(bounds, b, sizes@),
                forall|b: int|
                    0 <= b < bins ==> (#[trigger] bytes@[b]) == size_bin_bytes(bounds, b, sizes@),
                forall|b: int|
                    0 <= b < bin ==> (#[trigger] self.deep_view().file_counts[b])
                        == size_bin_count(bounds, b, sizes@) && self.deep_view().total_bytes[b]
                        == size_bin_bytes(bounds, b, sizes@),
            decreases bins - bin,
        {
            assert(counts@[bin as int] == size_bin_count(bounds, bin as int, sizes@));
            assert(bytes@[bin as int] == size_bin_bytes(bounds, bin as int, sizes@));
            if self.file_counts[bin] != counts[bin] || self.total_bytes[bin] != bytes[bin] {
                assert(self.deep_view().file_counts[bin as int] != size_bin_count(
                    bounds,
                    bin as int,
                    sizes@,
                ) || self.deep_view().total_bytes[bin as int] != size_bin_bytes(
                    bounds,
                    bin as int,
                    sizes@,
                ));
                return Err(
                    Error::Generic(
                        String::from_str("CRC allFiles does not match fileSizeHistogram"),
                    ),
                );
            }
            bin = bin + 1;
        }
        assert(self.deep_view().holds(sizes@));
        Ok(())
    }
}

impl FileSizeHistogramRaw {
    /// The persisted shape of a histogram.
    pub fn of(histogram: &FileSizeHistogram) -> (res: Self)
        ensures
            res.deep_view() == histogram.deep_view(),
    {
        let copy = histogram.dup();
        FileSizeHistogramRaw {
            sorted_bin_boundaries: copy.sorted_bin_boundaries,
            file_counts: copy.file_counts,
            total_bytes: copy.total_bytes,
        }
    }
}

/// Whether the sizes can be counted: neither their number nor their total leaves the range of
/// `i64`, and none is negative.
pub open spec fn sizes_countable(sizes: Seq<i64>) -> bool {
    sizes.len() <= i64::MAX && sums::totals(sizes)
}

/// Whether `e` reports why the sizes cannot be counted: there are too many, or else the first that
/// is negative or takes the total out of range.
pub open spec fn reports_sizes(sizes: Seq<i64>, e: ErrorView) -> bool {
    if sizes.len() > i64::MAX {
        e == ErrorView::Generic("file size histogram file count overflow"@)
    } else {
        exists|i: int| #[trigger]
            sums::breaks_total(sizes, i) && e == if sizes[i] < 0 {
                ErrorView::Generic(
                    "file size histogram cannot hold negative file size "@ + text::int_text(
                        sizes[i] as int,
                    ),
                )
            } else {
                ErrorView::Generic("file size histogram byte total overflow"@)
            }
    }
}

fn check_sizes(sizes: &Vec<i64>) -> (res: Result<(), Error>)
    ensures
        match res {
            Ok(()) => sizes_countable(sizes@),
            Err(e) => !sizes_countable(sizes@) && reports_sizes(sizes@, e.deep_view()),
        },
{
    if sizes.len() as u64 > i64::MAX as u64 {
        return Err(Error::Generic(String::from_str("file size histogram file count overflow")));
    }
    let mut total: i64 = 0;
    let mut i: usize = 0;
    assert(sizes@.take(0) =~= Seq::empty());
    while i < sizes.len()
        invariant
            i <= sizes@.len() <= i64::MAX,
            sums::totals(sizes@.take(i as int)),
            total == sums::sum(sizes@.take(i as int)),
        decreases sizes@.len() - i,
    {
        proof {
            sums::lemma_total_step(sizes@, i as int);
        }
        if sizes[i] < 0 {
            return Err(
                Error::Generic(
                    join(
                        "file size histogram cannot hold negative file size ",
                        i64_text(sizes[i]).as_str(),
                    ),
                ),
            );
        }
        match total.checked_add(sizes[i]) {
            Some(next) => {
                total = next;
            },
            None => {
                return Err(
                    Error::Generic(String::from_str("file size histogram byte total overflow")),
                );
            },
        }
        i = i + 1;
    }
    assert(sizes@.take(sizes@.len() as int) =~= sizes@);
    Ok(())
}

/// The error for files that the bins do not hold.
pub open spec fn files_mismatch() -> ErrorView {
    ErrorView::Generic("CRC allFiles does not match fileSizeHistogram"@)
}

/// The error for the first bin with a negative counter.
pub open spec fn negative_counter(bin: int) -> ErrorView {
    ErrorView::MalformedJson(
        "CRC fileSizeHistogram has negative counts or bytes at bin "@ + text::int_text(bin),
    )
}

/// Whether `e` reports why a histogram that was read is unusable: the first negative counter, or
/// else what is wrong with the bins.
pub open spec fn reports_histogram(h: FileSizeHistogramView, e: ErrorView) -> bool {
    if !h.counts_non_negative() {
        exists|bin: int|
            0 <= bin < h.counted_bins() && (#[trigger] h.negative_at(bin)) && (forall|b: int|
                0 <= b < bin ==> !#[trigger] h.negative_at(b)) && e == negative_counter(bin)
    } else {
        e == ErrorView::MalformedJson(h.malformed().text())
    }
}

/// Checks a histogram that was read, so that a malformed checksum file is rejected.
pub fn de_validated_file_size_histogram(raw: Option<FileSizeHistogramRaw>) -> (res: Result<
    Option<FileSizeHistogram>,
    Error,
>)
    ensures
        match raw {
            None => res matches Ok(None),
            Some(h) => match res {
                Ok(Some(histogram)) => h.deep_view().counts_non_negative()
                    && h.deep_view().well_formed() && histogram.deep_view() == h.deep_view(),
                Ok(None) => false,
                Err(e) => !(h.deep_view().counts_non_negative() && h.deep_view().well_formed())
                    && reports_histogram(h.deep_view(), e.deep_view()),
            },
        },
{
    match raw {
        None => Ok(None),
        Some(h) => {
            let ghost view = h.deep_view();
            let mut bin: usize = 0;
            while bin < h.file_counts.len() && bin < h.total_bytes.len()
                invariant
                    bin <= view.counted_bins(),
                    view == h.deep_view(),
                    raw == Some(h),
                    forall|b: int| 0 <= b < bin ==> !#[trigger] view.negative_at(b),
                decreases view.counted_bins() - bin,
            {
                if h.file_counts[bin] < 0 || h.total_bytes[bin] < 0 {
                    assert(view.negative_at(bin as int));
                    return Err(
                        Error::MalformedJson(
                            join(
                                "CRC fileSizeHistogram has negative counts or bytes at bin ",
                                u64_text(bin as u64).as_str(),
                            ),
                        ),
                    );
                }
                bin = bin + 1;
            }
            match FileSizeHistogram::try_new(
                h.sorted_bin_boundaries,
                h.file_counts,
                h.total_bytes,
            ) {
                Ok(histogram) => Ok(Some(histogram)),
                Err(e) => Err(Error::MalformedJson(e.to_text())),
            }
        },
    }
}

/// The bins of a histogram are usable exactly where there are two at least, the first from zero,
/// each boundary larger than the one before, and as many file counts and byte totals as boundaries.
pub proof fn law_usable_bins_exactly(h: FileSizeHistogramView)
    ensures
        h.well_formed() <==> {
            &&& h.sorted_bin_boundaries.len() >= 2
            &&& h.sorted_bin_boundaries[0] == 0
            &&& forall|i: int, j: int|
                0 <= i && i + 1 == j && j < h.sorted_bin_boundaries.len() ==> (
                #[trigger] h.sorted_bin_boundaries[i]) < (#[trigger] h.sorted_bin_boundaries[j])
            &&& h.file_counts.len() == h.sorted_bin_boundaries.len()
            &&& h.total_bytes.len() == h.sorted_bin_boundaries.len()
        },
{
    let bounds = h.sorted_bin_boundaries;
    if forall|i: int, j: int|
        0 <= i && i + 1 == j && j < bounds.len() ==> (#[trigger] bounds[i]) < (
        #[trigger] bounds[j]) {
        assert forall|i: int, j: int| 0 <= i < j < bounds.len() implies (#[trigger] bounds[i]) < (
        #[trigger] bounds[j]) by {
            lemma_ascends_step_by_step(bounds, i, j);
        }
    }
}

proof fn lemma_ascends_step_by_step(bounds: Seq<i64>, i: int, j: int)
    requires
        0 <= i < j < bounds.len(),
        forall|a: int, b: int|
            0 <= a && a + 1 == b && b < bounds.len() ==> (#[trigger] bounds[a]) < (
            #[trigger] bounds[b]),
    ensures
        bounds[i] < bounds[j],
    decreases j - i,
{
    assert(bounds[j - 1] < bounds[j]);
    if i < j - 1 {
        lemma_ascends_step_by_step(bounds, i, j - 1);
    }
}

} // verus!
