//! Properties of the endpoints that span more than one function.

use vstd::prelude::*;

use crate::handlers::{effective_limit, latest_accepted, MAX_LATEST_COUNT};
use crate::model::LatestTransaction;

verus! {

/// With no count given, the latest-transactions endpoint lists at most five
/// rows.
pub proof fn lemma_default_count_lists_at_most_five(rows: Seq<LatestTransaction>)
    requires
        latest_accepted(effective_limit(None), rows),
    ensures
        rows.len() <= 5,
{
}

/// Whatever count is asked for, the latest-transactions endpoint lists at most
/// `MAX_LATEST_COUNT` rows.
pub proof fn lemma_count_is_clamped(count: Option<i64>, rows: Seq<LatestTransaction>)
    requires
        latest_accepted(effective_limit(count), rows),
    ensures
        rows.len() <= MAX_LATEST_COUNT,
{
}

/// In any list the latest-transactions endpoint hands out, a row is never
/// older than a row after it.
pub proof fn lemma_latest_timestamps_non_increasing(
    limit: int,
    rows: Seq<LatestTransaction>,
    i: int,
    j: int,
)
    requires
        latest_accepted(limit, rows),
        0 <= i <= j < rows.len(),
    ensures
        rows[i].timestamp >= rows[j].timestamp,
    decreases j - i,
{
    if i < j {
        lemma_latest_timestamps_non_increasing(limit, rows, i, j - 1);
        assert(rows[j - 1].timestamp >= rows[j].timestamp);
    }
}

} // verus!
