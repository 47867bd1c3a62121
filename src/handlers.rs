//! The decisions of the three query endpoints. Each endpoint validates its
//! request into what the database is to be asked, and turns what the database
//! answered into the response body or an error. Running the query is left to
//! the caller; a request refused at validation is never queried.

use vstd::prelude::*;

use crate::date::{is_valid_ymd, parse_ymd, CalendarDate, DateError};
use crate::error::{ApiError, ErrorKind};
use crate::model::{is_newest_first, newest_first, LatestTransaction, LatestTransactionsParams, Transaction};

verus! {

/// Rows listed by the latest-transactions endpoint when no count is given.
pub const DEFAULT_LATEST_COUNT: i64 = 5;

/// Most rows the latest-transactions endpoint ever lists.
pub const MAX_LATEST_COUNT: i64 = 100;

pub open spec fn starts_with(s: Seq<char>, prefix: Seq<char>) -> bool {
    prefix.len() <= s.len() && s.subrange(0, prefix.len() as int) == prefix
}

/// The row limit for a requested count: the default when absent, clamped to
/// `0..=MAX_LATEST_COUNT` otherwise (a negative count lists nothing).
pub open spec fn effective_limit(count: Option<i64>) -> int {
    let c: int = match count {
        Some(c) => c as int,
        None => DEFAULT_LATEST_COUNT as int,
    };
    if c > MAX_LATEST_COUNT {
        MAX_LATEST_COUNT as int
    } else if c < 0 {
        0
    } else {
        c
    }
}

/// What the latest-transactions endpoint may hand out for `limit`: no more
/// rows than the limit, newest first.
pub open spec fn latest_accepted(limit: int, rows: Seq<LatestTransaction>) -> bool {
    rows.len() <= limit && newest_first(rows)
}

/// The error for a failed query: server error, with the database's own text.
pub open spec fn is_database_error(r: ApiError, text: String) -> bool {
    r.kind == ErrorKind::Internal && r.message@ == text@
}

/// Turns the by-signature lookup's outcome into the response. A missing row is
/// a success with an empty body, not a not-found error.
pub fn transaction_by_id_response(
    signature: &str,
    fetched: Result<Option<Transaction>, String>,
) -> (r: Result<Option<Transaction>, ApiError>)
    ensures
        match fetched {
            Err(e) => r matches Err(err) && is_database_error(err, e),
            Ok(None) => r == Ok::<Option<Transaction>, ApiError>(None),
            Ok(Some(t)) => if t.signature@ == signature@ {
                r == Ok::<Option<Transaction>, ApiError>(Some(t))
            } else {
                r matches Err(err) && err.kind == ErrorKind::Internal
            },
        },
{
    match fetched {
        Err(e) => Err(ApiError::new(ErrorKind::Internal, e)),
        Ok(None) => Ok(None),
        Ok(Some(t)) => {
            let wanted = String::from_str(signature);
            if t.signature == wanted {
                Ok(Some(t))
            } else {
                Err(
                    ApiError::new(
                        ErrorKind::Internal,
                        String::from_str("database returned a row for another signature"),
                    ),
                )
            }
        },
    }
}

/// Validates the by-date request. Only a `YYYY-MM-DD` text naming a real day
/// yields the date to query; anything else is a client error, and no query is
/// to be made.
pub fn transactions_by_date_query(date: &str) -> (r: Result<CalendarDate, ApiError>)
    ensures
        r is Ok <==> is_valid_ymd(date@),
        r matches Ok(d) ==> d.matches_ymd(date@),
        r matches Err(err) ==> err.kind == ErrorKind::BadRequest && starts_with(
            err.message@,
            "Invalid date format: "@,
        ),
{
    let prefix = String::from_str("Invalid date format: ");
    match parse_ymd(date) {
        Ok(d) => Ok(d),
        Err(DateError::Shape) => {
            let message = prefix.concat("expected YYYY-MM-DD");
            assert(message@.subrange(0, "Invalid date format: "@.len() as int)
                =~= "Invalid date format: "@);
            Err(ApiError::new(ErrorKind::BadRequest, message))
        },
        Err(DateError::Calendar(reason)) => {
            let message = prefix.concat(reason.as_str());
            assert(message@.subrange(0, "Invalid date format: "@.len() as int)
                =~= "Invalid date format: "@);
            Err(ApiError::new(ErrorKind::BadRequest, message))
        },
    }
}

/// Turns the by-date query's outcome into the response. No matching row is a
/// not-found error naming the date; otherwise the rows are returned as found.
pub fn transactions_by_date_response(
    date: &str,
    fetched: Result<Vec<Transaction>, String>,
) -> (r: Result<Vec<Transaction>, ApiError>)
    ensures
        match fetched {
            Err(e) => r matches Err(err) && is_database_error(err, e),
            Ok(rows) => if rows.len() == 0 {
                r matches Err(err) && err.kind == ErrorKind::NotFound && err.message@
                    == "No transactions found for date: "@ + date@
            } else {
                r == Ok::<Vec<Transaction>, ApiError>(rows)
            },
        },
{
    match fetched {
        Err(e) => Err(ApiError::new(ErrorKind::Internal, e)),
        Ok(rows) => {
            if rows.len() == 0 {
                let message = String::from_str("No transactions found for date: ").concat(date);
                Err(ApiError::new(ErrorKind::NotFound, message))
            } else {
                Ok(rows)
            }
        },
    }
}

/// The number of rows the latest-transactions query is to be limited to.
pub fn effective_count(params: &LatestTransactionsParams) -> (r: i64)
    ensures
        r == effective_limit(params.count),
        0 <= r <= MAX_LATEST_COUNT,
{
    let c = match params.count {
        Some(c) => c,
        None => DEFAULT_LATEST_COUNT,
    };
    if c > MAX_LATEST_COUNT {
        MAX_LATEST_COUNT
    } else if c < 0 {
        0
    } else {
        c
    }
}

/// Turns the latest-transactions query's outcome into the response. Rows are
/// handed out only when they respect the limit and come newest first; an
/// answer that does not is a server error.
pub fn latest_transactions_response(
    limit: i64,
    fetched: Result<Vec<LatestTransaction>, String>,
) -> (r: Result<Vec<LatestTransaction>, ApiError>)
    ensures
        match fetched {
            Err(e) => r matches Err(err) && is_database_error(err, e),
            Ok(rows) => if latest_accepted(limit as int, rows@) {
                r == Ok::<Vec<LatestTransaction>, ApiError>(rows)
            } else {
                r matches Err(err) && err.kind == ErrorKind::Internal
            },
        },
        r matches Ok(rows) ==> latest_accepted(limit as int, rows@),
{
    match fetched {
        Err(e) => Err(ApiError::new(ErrorKind::Internal, e)),
        Ok(rows) => {
            if limit >= 0 && rows.len() as u64 <= limit as u64 && is_newest_first(&rows) {
                Ok(rows)
            } else {
                Err(
                    ApiError::new(
                        ErrorKind::Internal,
                        String::from_str("database returned rows beyond the limit or out of order"),
                    ),
                )
            }
        },
    }
}

} // verus!
