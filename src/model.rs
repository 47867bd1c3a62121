//! Rows read from the transaction table, and request parameters.

use vstd::prelude::*;

verus! {

/// One recorded on-chain transaction.
#[derive(Clone, Debug, PartialEq, Eq)]
pub struct Transaction {
    /// Unique identifier of the transaction.
    pub signature: String,
    /// When it happened: microseconds since the Unix epoch, UTC.
    pub timestamp: i64,
    /// Position in the chain.
    pub slot: i64,
    /// Fee charged.
    pub fee: i64,
    /// Account that paid the fee.
    pub fee_payer: String,
    /// Label classifying the transaction.
    pub transaction_type: String,
    /// The full transaction body, as JSON text.
    pub transaction: String,
}

/// The narrow projection used by the latest-transactions listing.
#[derive(Clone, Debug, PartialEq, Eq)]
pub struct LatestTransaction {
    /// Microseconds since the Unix epoch, UTC.
    pub timestamp: i64,
    pub signature: String,
    pub slot: i64,
}

/// Query parameters of the latest-transactions listing.
#[derive(Clone, Copy, Debug, PartialEq, Eq, Structural)]
pub struct LatestTransactionsParams {
    /// How many rows are wanted; see `effective_count`.
    pub count: Option<i64>,
}

/// Timestamps never increase from one row to the next.
pub open spec fn newest_first(rows: Seq<LatestTransaction>) -> bool {
    forall|i: int| 0 <= i < rows.len() - 1 ==> #[trigger] rows[i].timestamp >= rows[i + 1].timestamp
}

/// Whether the rows are in newest-first order.
pub fn is_newest_first(rows: &Vec<LatestTransaction>) -> (r: bool)
    ensures
        r == newest_first(rows@),
{
    let n = rows.len();
    if n < 2 {
        return true;
    }
    let mut i: usize = 0;
    while i + 1 < n
        invariant
            n == rows@.len(),
            n >= 2,
            0 <= i <= n - 1,
            forall|k: int| 0 <= k < i ==> #[trigger] rows@[k].timestamp >= rows@[k + 1].timestamp,
        decreases n - i,
    {
        if rows[i].timestamp < rows[i + 1].timestamp {
            return false;
        }
        i = i + 1;
    }
    true
}

} // verus!
