//! How far a stale checksum state may be replayed forward.

use vstd::prelude::*;

use crate::error::Error;
use crate::error::ErrorView;
use crate::text;
use crate::text::{around_u64, join, u64_text};

verus! {

/// Whether commits are replayed to bring a stale checksum state to the version of a snapshot. A
/// state that is already at the version is used in any case.
#[derive(Debug, Clone, Copy, PartialEq, Eq, Structural)]
pub enum IncrementalReplay {
    /// Never: fall back to reading the log.
    Disabled,
    /// Only where at most this many commits have to be replayed.
    UpToCommits(u64),
    /// However stale the state is.
    Unlimited,
}

impl Default for IncrementalReplay {
    fn default() -> (res: Self)
        ensures
            res == IncrementalReplay::Disabled,
    {
        IncrementalReplay::Disabled
    }
}

impl IncrementalReplay {
    /// Whether a state may be replayed over `distance` commits.
    pub open spec fn allows(self, distance: int) -> bool {
        match self {
            IncrementalReplay::Disabled => false,
            IncrementalReplay::UpToCommits(n) => distance <= n,
            IncrementalReplay::Unlimited => true,
        }
    }

    /// Whether a state at `crc_version` may be replayed to `target_version`.
    ///
    /// # Errors
    ///
    /// Where the state is ahead of the target.
    pub fn should_advance(self, crc_version: u64, target_version: u64) -> (res: Result<bool, Error>)
        ensures
            match res {
                Ok(advance) => crc_version <= target_version && advance == self.allows(
                    target_version - crc_version,
                ),
                Err(e) => crc_version > target_version && e.deep_view() == crc_ahead(
                    crc_version,
                    target_version,
                ),
            },
    {
        match target_version.checked_sub(crc_version) {
            Some(distance) => Ok(
                match self {
                    IncrementalReplay::Disabled => false,
                    IncrementalReplay::UpToCommits(n) => distance <= n,
                    IncrementalReplay::Unlimited => true,
                },
            ),
            None => {
                let head = around_u64("CRC version ", crc_version, " is ahead of target version ");
                Err(Error::InternalError(join(head.as_str(), u64_text(target_version).as_str())))
            },
        }
    }
}

/// The error for a state ahead of the target.
pub open spec fn crc_ahead(crc_version: u64, target_version: u64) -> ErrorView {
    ErrorView::InternalError(
        "CRC version "@ + text::int_text(crc_version as int) + " is ahead of target version "@
            + text::int_text(target_version as int),
    )
}

/// For a stale state, a budget of no commits is the same as none.
pub proof fn law_zero_commits_is_disabled(distance: int)
    requires
        distance > 0,
    ensures
        IncrementalReplay::UpToCommits(0).allows(distance) == IncrementalReplay::Disabled.allows(
            distance,
        ),
{
}

/// A larger budget allows whatever a smaller one allows, and no budget limits an unlimited one.
pub proof fn law_larger_budget_allows_more(small: u64, large: u64, distance: int)
    requires
        small <= large,
    ensures
        IncrementalReplay::Disabled.allows(distance) ==> IncrementalReplay::UpToCommits(
            small,
        ).allows(distance),
        IncrementalReplay::UpToCommits(small).allows(distance) ==> IncrementalReplay::UpToCommits(
            large,
        ).allows(distance),
        IncrementalReplay::Unlimited.allows(distance),
{
}

/// A budget that allows a state to be replayed allows a fresher one too.
pub proof fn law_fresher_state_is_allowed(replay: IncrementalReplay, near: int, far: int)
    requires
        near <= far,
        replay.allows(far),
    ensures
        replay.allows(near),
{
}

} // verus!
