//! Checked sums of counters.

use vstd::prelude::*;

use crate::error::Error;
use crate::error::ErrorView;
use crate::text::around;

verus! {

/// The sum of the values.
pub open spec fn sum(values: Seq<i64>) -> int
    decreases values.len(),
{
    if values.len() == 0 {
        0
    } else {
        sum(values.drop_last()) + values.last()
    }
}

/// Whether adding the values one by one, from the first, never leaves the range of `i64`.
pub open spec fn sums_fit(values: Seq<i64>) -> bool {
    forall|i: int| 0 <= i <= values.len() ==> i64::MIN <= sum(#[trigger] values.take(i)) <= i64::MAX
}

/// Adding one more value to the sum of a prefix.
pub proof fn lemma_sum_step(values: Seq<i64>, i: int)
    requires
        0 <= i < values.len(),
    ensures
        sum(values.take(i + 1)) == sum(values.take(i)) + values[i],
{
    assert(values.take(i + 1).drop_last() =~= values.take(i));
}

/// The partial sums of values that are not negative only grow, so they fit where the sum fits.
pub proof fn lemma_sums_fit_of_total(values: Seq<i64>)
    requires
        forall|i: int| 0 <= i < values.len() ==> #[trigger] values[i] >= 0,
    ensures
        0 <= sum(values),
        sums_fit(values) <==> sum(values) <= i64::MAX,
{
    assert(values.take(values.len() as int) =~= values);
    assert forall|i: int| 0 <= i <= values.len() implies 0 <= sum(#[trigger] values.take(i)) <= sum(values) by {
        lemma_prefix_sum_grows(values, i, values.len() as int);
        lemma_prefix_sum_grows(values, 0, i);
        assert(values.take(0) =~= Seq::empty());
    }
}

/// A longer prefix of values that are not negative has a sum at least as large.
pub proof fn lemma_prefix_sum_grows(values: Seq<i64>, i: int, j: int)
    requires
        0 <= i <= j <= values.len(),
        forall|k: int| 0 <= k < values.len() ==> #[trigger] values[k] >= 0,
    ensures
        sum(values.take(i)) <= sum(values.take(j)),
    decreases j - i,
{
    if i < j {
        lemma_prefix_sum_grows(values, i, j - 1);
        lemma_sum_step(values, j - 1);
    }
}

/// Whether no value is negative and their sum is in the range of `i64`.
pub open spec fn totals(values: Seq<i64>) -> bool {
    &&& forall|i: int| 0 <= i < values.len() ==> #[trigger] values[i] >= 0
    &&& sum(values) <= i64::MAX
}

/// Whether `i` is the first value that is negative or takes the sum out of the range of `i64`.
pub open spec fn breaks_total(values: Seq<i64>, i: int) -> bool {
    &&& 0 <= i < values.len()
    &&& totals(values.take(i))
    &&& !totals(values.take(i + 1))
}

/// What one more value does to a total.
pub proof fn lemma_total_step(values: Seq<i64>, i: int)
    requires
        0 <= i < values.len(),
        totals(values.take(i)),
    ensures
        sum(values.take(i + 1)) == sum(values.take(i)) + values[i],
        0 <= sum(values.take(i)),
        totals(values.take(i + 1)) <==> values[i] >= 0 && sum(values.take(i)) + values[i]
            <= i64::MAX,
        !totals(values.take(i + 1)) ==> breaks_total(values, i) && !totals(values),
{
    let (seen, next) = (values.take(i), values.take(i + 1));
    lemma_sum_step(values, i);
    lemma_sums_fit_of_total(seen);
    assert(next[i] == values[i]);
    assert forall|k: int| 0 <= k < i implies next[k] >= 0 by {
        assert(seen[k] >= 0);
    }
    if values[i] >= 0 {
        assert forall|k: int| 0 <= k < next.len() implies #[trigger] next[k] >= 0 by {}
        if sum(next) > i64::MAX && totals(values) {
            lemma_prefix_sum_grows(values, i + 1, values.len() as int);
            assert(values.take(values.len() as int) =~= values);
        }
    }
}

/// The error for values whose sum leaves the range of `i64`.
pub open spec fn sum_overflow(name: Seq<char>) -> ErrorView {
    ErrorView::Generic("CRC "@ + name + " sum overflow"@)
}

/// The sum of the values, or an error that names them where a partial sum overflows.
pub fn checked_sum(name: &str, values: &Vec<i64>) -> (res: Result<i64, Error>)
    ensures
        match res {
            Ok(total) => sums_fit(values@) && total == sum(values@),
            Err(e) => !sums_fit(values@) && e.deep_view() == sum_overflow(name@),
        },
{
    let mut total: i64 = 0;
    let mut i: usize = 0;
    assert(values@.take(0) =~= Seq::empty());
    while i < values.len()
        invariant
            i <= values@.len(),
            total == sum(values@.take(i as int)),
            forall|j: int|
                0 <= j <= i ==> i64::MIN <= sum(#[trigger] values@.take(j)) <= i64::MAX,
        decreases values@.len() - i,
    {
        proof {
            lemma_sum_step(values@, i as int);
        }
        match total.checked_add(values[i]) {
            Some(next) => {
                total = next;
            },
            None => {
                assert(!(i64::MIN <= sum(values@.take(i + 1)) <= i64::MAX));
                return Err(Error::Generic(around("CRC ", name, " sum overflow")));
            },
        }
        i = i + 1;
    }
    assert(values@.take(values@.len() as int) =~= values@);
    Ok(total)
}

} // verus!
