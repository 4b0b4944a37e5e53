//! What a catalog-managed table asks of a snapshot build.

use vstd::prelude::*;
use vstd::string::*;

use crate::error::Error;
use crate::error::ErrorView;
use crate::log_files::{LogPathFileType, ParsedLogPath};
use crate::snapshot::types::Snapshot;
use crate::text;
use crate::text::{around_u64, join, u64_text};

verus! {

/// Whether the versions of the log tail ascend one by one.
pub open spec fn contiguous(tail: Seq<ParsedLogPath>) -> bool {
    forall|i: int| 0 <= i < tail.len() ==> (#[trigger] tail[i]).version == tail[0].version + i
}

/// Whether a staged commit is among the files.
pub open spec fn has_staged(files: Seq<ParsedLogPath>) -> bool {
    exists|i: int|
        0 <= i < files.len() && (#[trigger] files[i]).file_type == LogPathFileType::StagedCommit
}

/// Whether the requested version, where there is one, is within the maximum catalog version.
pub open spec fn within_catalog(version: Option<u64>, max_catalog_version: Option<u64>) -> bool {
    version is Some && max_catalog_version is Some ==> version->0 <= max_catalog_version->0
}

/// Whether the log tail reaches the version that is loaded.
pub open spec fn tail_reaches(
    version: Option<u64>,
    max_catalog_version: Option<u64>,
    tail: Seq<ParsedLogPath>,
) -> bool {
    max_catalog_version is Some && tail.len() > 0 ==> match version {
        Some(v) => tail.last().version >= v,
        None => tail.last().version == max_catalog_version->0,
    }
}

/// Whether a build can start from these inputs.
pub open spec fn inputs_valid(
    version: Option<u64>,
    max_catalog_version: Option<u64>,
    tail: Seq<ParsedLogPath>,
) -> bool {
    &&& contiguous(tail)
    &&& has_staged(tail) ==> max_catalog_version is Some
    &&& within_catalog(version, max_catalog_version)
    &&& tail_reaches(version, max_catalog_version, tail)
}

/// The error for staged commits without a maximum catalog version.
pub open spec fn staged_without_catalog() -> ErrorView {
    ErrorView::MaxCatalogVersion(
        "Max catalog version is required when providing staged commits in the log tail. Use with_max_catalog_version()."@,
    )
}

/// The error for a requested version beyond the maximum catalog version.
pub open spec fn beyond_catalog(version: u64, max_catalog_version: u64) -> ErrorView {
    ErrorView::MaxCatalogVersion(
        "Requested version "@ + text::int_text(version as int) + " exceeds max catalog version "@
            + text::int_text(max_catalog_version as int),
    )
}

/// The error for a log tail that does not reach the version that is loaded.
pub open spec fn tail_short(last: u64, version: Option<u64>, max_catalog_version: u64) -> ErrorView {
    ErrorView::MaxCatalogVersion(
        match version {
            Some(v) => "Log tail version "@ + text::int_text(last as int)
                + " is less than requested version "@ + text::int_text(v as int)
                + " for max catalog version "@ + text::int_text(max_catalog_version as int),
            None => "Log tail version "@ + text::int_text(last as int)
                + " does not match max catalog version "@ + text::int_text(
                max_catalog_version as int,
            ),
        },
    )
}

/// Whether `e` reports the first place where the versions of the log tail do not ascend one by
/// one.
pub open spec fn reports_gap(tail: Seq<ParsedLogPath>, e: ErrorView) -> bool {
    exists|i: int|
        0 <= i && i + 1 < tail.len() && contiguous(tail.take(i + 1)) && !contiguous(
            tail.take(i + 2),
        ) && e == (ErrorView::LogTailVersionsNotContiguous {
            first_version: (#[trigger] tail[i]).version,
            second_version: tail[i + 1].version,
        })
}

/// Whether `e` reports the first rule that the inputs break.
pub open spec fn reports_inputs(
    version: Option<u64>,
    max_catalog_version: Option<u64>,
    tail: Seq<ParsedLogPath>,
    e: ErrorView,
) -> bool {
    if !contiguous(tail) {
        reports_gap(tail, e)
    } else if has_staged(tail) && max_catalog_version is None {
        e == staged_without_catalog()
    } else if !within_catalog(version, max_catalog_version) {
        e == beyond_catalog(version->0, max_catalog_version->0)
    } else {
        e == tail_short(tail.last().version, version, max_catalog_version->0)
    }
}

/// The version that is loaded; none means the latest.
pub open spec fn effective_version(
    version: Option<u64>,
    max_catalog_version: Option<u64>,
) -> Option<u64> {
    if version is Some {
        version
    } else {
        max_catalog_version
    }
}

/// Whether the version that is loaded is the latest one.
pub open spec fn loads_latest(version: Option<u64>, max_catalog_version: Option<u64>) -> bool {
    version is None || version == max_catalog_version
}

/// The maximum catalog version is never passed: with one, a version is always loaded that does
/// not exceed it.
pub proof fn law_catalog_bounds_version(
    version: Option<u64>,
    max_catalog_version: u64,
    tail: Seq<ParsedLogPath>,
)
    requires
        inputs_valid(version, Some(max_catalog_version), tail),
    ensures
        effective_version(version, Some(max_catalog_version)) is Some,
        effective_version(version, Some(max_catalog_version))->0 <= max_catalog_version,
{
}

/// With a maximum catalog version, a log tail that is accepted reaches the version that is
/// loaded, and ends there unless an explicit version was requested.
pub proof fn law_tail_reaches_version(
    version: Option<u64>,
    max_catalog_version: u64,
    tail: Seq<ParsedLogPath>,
)
    requires
        inputs_valid(version, Some(max_catalog_version), tail),
        tail.len() > 0,
    ensures
        tail.last().version >= effective_version(version, Some(max_catalog_version))->0,
        version is None ==> tail.last().version == effective_version(
            version,
            Some(max_catalog_version),
        )->0,
{
}

/// No two entries of a log tail that is accepted have the same version, and they are in order.
pub proof fn law_tail_ascends(
    version: Option<u64>,
    max_catalog_version: Option<u64>,
    tail: Seq<ParsedLogPath>,
    i: int,
    j: int,
)
    requires
        inputs_valid(version, max_catalog_version, tail),
        0 <= i < j < tail.len(),
    ensures
        tail[j].version - tail[i].version == j - i,
{
}

/// Whether a staged commit is among the files.
pub fn any_staged(files: &Vec<ParsedLogPath>) -> (res: bool)
    ensures
        res == has_staged(files@),
{
    let mut i: usize = 0;
    while i < files.len()
        invariant
            i <= files@.len(),
            forall|j: int|
                0 <= j < i ==> (#[trigger] files@[j]).file_type != LogPathFileType::StagedCommit,
        decreases files@.len() - i,
    {
        if files[i].file_type == LogPathFileType::StagedCommit {
            return true;
        }
        i = i + 1;
    }
    false
}

fn check_contiguous(log_tail: &Vec<ParsedLogPath>) -> (res: Result<(), Error>)
    ensures
        match res {
            Ok(()) => contiguous(log_tail@),
            Err(e) => !contiguous(log_tail@) && reports_gap(log_tail@, e.deep_view()),
        },
{
    let ghost tail = log_tail@;
    let mut i: usize = 0;
    while i < log_tail.len()
        invariant
            i <= log_tail@.len(),
            tail == log_tail@,
            contiguous(tail.take(i as int)),
        decreases log_tail@.len() - i,
    {
        proof {
            assert forall|j: int| 0 <= j < i implies (#[trigger] tail[j]).version
                == tail[0].version + j by {
                assert(tail.take(i as int)[j] == tail[j]);
                assert(tail.take(i as int)[0] == tail[0]);
            }
        }
        if i > 0 && log_tail[i - 1].version.checked_add(1) != Some(log_tail[i].version) {
            proof {
                assert(tail[i - 1].version == tail[0].version + (i - 1));
                assert(tail[i as int].version != tail[0].version + i);
                assert(tail.take(i + 1)[i as int] == tail[i as int]);
                assert(tail.take(i + 1)[0] == tail[0]);
                assert(!contiguous(tail.take(i + 1)));
            }
            return Err(
                Error::LogTailVersionsNotContiguous {
                    first_version: log_tail[i - 1].version,
                    second_version: log_tail[i].version,
                },
            );
        }
        proof {
            assert(i > 0 ==> tail[i - 1].version == tail[0].version + (i - 1));
            assert forall|j: int| 0 <= j < i + 1 implies (#[trigger] tail.take(i + 1)[j]).version
                == tail.take(i + 1)[0].version + j by {
                assert(tail.take(i + 1)[j] == tail[j]);
            }
        }
        i = i + 1;
    }
    assert(tail.take(tail.len() as int) =~= tail);
    Ok(())
}

fn staged_error() -> (res: Error)
    ensures
        res.deep_view() == staged_without_catalog(),
{
    Error::MaxCatalogVersion(
        String::from_str(
            "Max catalog version is required when providing staged commits in the log tail. Use with_max_catalog_version().",
        ),
    )
}

/// Requires a maximum catalog version where there are staged commits.
pub fn require_catalog_for_staged(staged: bool, max_catalog_version: Option<u64>) -> (res: Result<
    (),
    Error,
>)
    ensures
        match res {
            Ok(()) => staged ==> max_catalog_version is Some,
            Err(e) => staged && max_catalog_version is None && e.deep_view()
                == staged_without_catalog(),
        },
{
    if staged && max_catalog_version.is_none() {
        return Err(staged_error());
    }
    Ok(())
}

/// Checks the inputs of a build against each other, before anything is read.
pub fn validate_catalog_managed_build_inputs(
    version: Option<u64>,
    max_catalog_version: Option<u64>,
    log_tail: &Vec<ParsedLogPath>,
) -> (res: Result<(), Error>)
    ensures
        match res {
            Ok(()) => inputs_valid(version, max_catalog_version, log_tail@),
            Err(e) => !inputs_valid(version, max_catalog_version, log_tail@) && reports_inputs(
                version,
                max_catalog_version,
                log_tail@,
                e.deep_view(),
            ),
        },
{
    if let Err(e) = check_contiguous(log_tail) {
        return Err(e);
    }
    if let Err(e) = require_catalog_for_staged(any_staged(log_tail), max_catalog_version) {
        return Err(e);
    }
    if let (Some(ver), Some(max_cv)) = (version, max_catalog_version) {
        if ver > max_cv {
            let head = around_u64("Requested version ", ver, " exceeds max catalog version ");
            return Err(Error::MaxCatalogVersion(join(head.as_str(), u64_text(max_cv).as_str())));
        }
    }
    if let Some(max_cv) = max_catalog_version {
        if log_tail.len() > 0 {
            let last = log_tail[log_tail.len() - 1].version;
            if let Some(ver) = version {
                if last < ver {
                    let head = around_u64(
                        "Log tail version ",
                        last,
                        " is less than requested version ",
                    );
                    let head = around_u64(head.as_str(), ver, " for max catalog version ");
                    return Err(
                        Error::MaxCatalogVersion(join(head.as_str(), u64_text(max_cv).as_str())),
                    );
                }
            } else if last != max_cv {
                let head = around_u64(
                    "Log tail version ",
                    last,
                    " does not match max catalog version ",
                );
                return Err(
                    Error::MaxCatalogVersion(join(head.as_str(), u64_text(max_cv).as_str())),
                );
            }
        }
    }
    Ok(())
}

/// The error for a table that is catalog-managed without a maximum catalog version, or has one
/// though it is not.
pub open spec fn catalog_mismatch(max_catalog_version: Option<u64>) -> ErrorView {
    ErrorView::MaxCatalogVersion(
        match max_catalog_version {
            None =>
                "Max catalog version is required when loading a catalog-managed table. Use with_max_catalog_version()."@,
            Some(v) => "Max catalog version "@ + text::int_text(v as int)
                + " must not be set for a non-catalog-managed table"@,
        },
    )
}

/// Checks a snapshot that was built: a maximum catalog version is set exactly where a catalog
/// manages the table.
pub fn validate_catalog_managed_build_result(
    snapshot: &Snapshot,
    max_catalog_version: Option<u64>,
) -> (res: Result<(), Error>)
    ensures
        match res {
            Ok(()) => snapshot.deep_view().table_configuration.catalog_managed
                == max_catalog_version is Some,
            Err(e) => snapshot.deep_view().table_configuration.catalog_managed
                != max_catalog_version is Some && e.deep_view() == catalog_mismatch(
                max_catalog_version,
            ),
        },
{
    let is_catalog_managed = snapshot.table_configuration.catalog_managed;
    if is_catalog_managed && max_catalog_version.is_none() {
        return Err(
            Error::MaxCatalogVersion(
                String::from_str(
                    "Max catalog version is required when loading a catalog-managed table. Use with_max_catalog_version().",
                ),
            ),
        );
    }
    if let Some(v) = max_catalog_version {
        if !is_catalog_managed {
            return Err(
                Error::MaxCatalogVersion(
                    around_u64(
                        "Max catalog version ",
                        v,
                        " must not be set for a non-catalog-managed table",
                    ),
                ),
            );
        }
    }
    Ok(())
}

} // verus!
