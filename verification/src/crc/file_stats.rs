//! File-level statistics of a table version.

use vstd::prelude::*;

use crate::crc::file_size_histogram::{FileSizeHistogram, FileSizeHistogramView};
use crate::crc::sums;
use crate::crc::sums::checked_sum;
use crate::data::Data;
use crate::error::Error;
use crate::error::ErrorView;
use crate::text;
use crate::text::{around_i64, i64_text, join};

verus! {

/// The number and total size of the live files of a table version.
#[derive(Debug)]
pub struct FileStats {
    /// The number of live files.
    pub num_files: i64,
    /// Their total size in bytes.
    pub table_size_bytes: i64,
    /// The distribution of their sizes.
    pub file_size_histogram: Option<FileSizeHistogram>,
}

/// The mathematical value of [`FileStats`].
#[verifier::ext_equal]
pub struct FileStatsView {
    pub num_files: i64,
    pub table_size_bytes: i64,
    pub file_size_histogram: Option<FileSizeHistogramView>,
}

impl DeepView for FileStats {
    type V = FileStatsView;

    open spec fn deep_view(&self) -> FileStatsView {
        FileStatsView {
            num_files: self.num_files,
            table_size_bytes: self.table_size_bytes,
            file_size_histogram: self.file_size_histogram.deep_view(),
        }
    }
}

impl Data for FileStats {
    fn dup(&self) -> (res: Self) {
        FileStats {
            num_files: self.num_files,
            table_size_bytes: self.table_size_bytes,
            file_size_histogram: self.file_size_histogram.dup(),
        }
    }

    fn same(&self, other: &Self) -> (res: bool) {
        self.num_files == other.num_files && self.table_size_bytes == other.table_size_bytes
            && self.file_size_histogram.same(&other.file_size_histogram)
    }
}

impl FileStatsView {
    /// Whether the statistics are consistent: neither is negative, and the histogram, where there
    /// is one, counts as many files and as many bytes.
    pub open spec fn valid(self) -> bool {
        &&& self.num_files >= 0
        &&& self.table_size_bytes >= 0
        &&& self.file_size_histogram matches Some(h) ==> {
            &&& sums::sums_fit(h.file_counts)
            &&& sums::sum(h.file_counts) == self.num_files
            &&& sums::sums_fit(h.total_bytes)
            &&& sums::sum(h.total_bytes) == self.table_size_bytes
        }
    }

    /// The error for statistics that are not consistent.
    pub open spec fn inconsistency(self) -> ErrorView {
        if self.num_files < 0 {
            ErrorView::Generic(
                "CRC has invalid numFiles: expected a non-negative value, got "@ + text::int_text(
                    self.num_files as int,
                ),
            )
        } else if self.table_size_bytes < 0 {
            ErrorView::Generic(
                "CRC has invalid tableSizeBytes: expected a non-negative value, got "@
                    + text::int_text(self.table_size_bytes as int),
            )
        } else {
            self.file_size_histogram->0.disagreement(self.num_files, self.table_size_bytes)
        }
    }
}

impl FileSizeHistogramView {
    /// The error for bins that do not count `num_files` files and `table_size_bytes` bytes.
    pub open spec fn disagreement(self, num_files: i64, table_size_bytes: i64) -> ErrorView {
        if !sums::sums_fit(self.file_counts) {
            sums::sum_overflow("fileSizeHistogram.fileCounts"@)
        } else if sums::sum(self.file_counts) != num_files {
            ErrorView::Generic(
                "CRC file-size histogram file count "@ + text::int_text(
                    sums::sum(self.file_counts),
                ) + " does not match numFiles "@ + text::int_text(num_files as int),
            )
        } else if !sums::sums_fit(self.total_bytes) {
            sums::sum_overflow("fileSizeHistogram.totalBytes"@)
        } else {
            ErrorView::Generic(
                "CRC file-size histogram byte total "@ + text::int_text(sums::sum(self.total_bytes))
                    + " does not match tableSizeBytes "@ + text::int_text(table_size_bytes as int),
            )
        }
    }
}

impl FileStats {
    /// The statistics with these values.
    ///
    /// # Errors
    ///
    /// Where a value is negative or the histogram counts other totals.
    pub fn try_new(
        num_files: i64,
        table_size_bytes: i64,
        file_size_histogram: Option<FileSizeHistogram>,
    ) -> (res: Result<Self, Error>)
        ensures
            ({
                let view = FileStatsView {
                    num_files,
                    table_size_bytes,
                    file_size_histogram: file_size_histogram.deep_view(),
                };
                match res {
                    Ok(stats) => view.valid() && stats.deep_view() == view,
                    Err(e) => !view.valid() && e.deep_view() == view.inconsistency(),
                }
            }),
    {
        let stats = FileStats { num_files, table_size_bytes, file_size_histogram };
        match stats.validate() {
            Ok(()) => Ok(stats),
            Err(e) => Err(e),
        }
    }

    /// Checks the statistics against each other.
    pub fn validate(&self) -> (res: Result<(), Error>)
        ensures
            match res {
                Ok(()) => self.deep_view().valid(),
                Err(e) => !self.deep_view().valid() && e.deep_view()
                    == self.deep_view().inconsistency(),
            },
    {
        if self.num_files < 0 {
            return Err(
                Error::Generic(
                    join(
                        "CRC has invalid numFiles: expected a non-negative value, got ",
                        i64_text(self.num_files).as_str(),
                    ),
                ),
            );
        }
        if self.table_size_bytes < 0 {
            return Err(
                Error::Generic(
                    join(
                        "CRC has invalid tableSizeBytes: expected a non-negative value, got ",
                        i64_text(self.table_size_bytes).as_str(),
                    ),
                ),
            );
        }
        if let Some(histogram) = &self.file_size_histogram {
            let files = match checked_sum("fileSizeHistogram.fileCounts", histogram.file_counts()) {
                Ok(files) => files,
                Err(e) => {
                    return Err(e);
                },
            };
            if files != self.num_files {
                let head = around_i64(
                    "CRC file-size histogram file count ",
                    files,
                    " does not match numFiles ",
                );
                return Err(
                    Error::Generic(join(head.as_str(), i64_text(self.num_files).as_str())),
                );
            }
            let bytes = match checked_sum("fileSizeHistogram.totalBytes", histogram.total_bytes()) {
                Ok(bytes) => bytes,
                Err(e) => {
                    return Err(e);
                },
            };
            if bytes != self.table_size_bytes {
                let head = around_i64(
                    "CRC file-size histogram byte total ",
                    bytes,
                    " does not match tableSizeBytes ",
                );
                return Err(
                    Error::Generic(join(head.as_str(), i64_text(self.table_size_bytes).as_str())),
                );
            }
        }
        Ok(())
    }

    /// The number of live files.
    pub fn num_files(&self) -> (res: i64)
        ensures
            res == self.deep_view().num_files,
    {
        self.num_files
    }

    /// The total size of the live files in bytes.
    pub fn table_size_bytes(&self) -> (res: i64)
        ensures
            res == self.deep_view().table_size_bytes,
    {
        self.table_size_bytes
    }

    /// The distribution of the file sizes.
    pub fn file_size_histogram(&self) -> (res: Option<&FileSizeHistogram>)
        ensures
            res.deep_view() == self.deep_view().file_size_histogram,
    {
        self.file_size_histogram.as_ref()
    }
}

} // verus!
