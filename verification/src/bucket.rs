//! The grouping summary row: lots are grouped into named buckets by an
//! external grouping service; this ledger only carries the foreign
//! `bucket_id` and the summary shape that service reports.

use vstd::prelude::*;

verus! {

/// One bucket with the number of lots it groups.
#[derive(Debug)]
pub struct BucketWithStats {
    pub rowid: Option<i64>,
    pub name: Option<String>,
    pub lot_count: Option<i64>,
}

} // verus!
