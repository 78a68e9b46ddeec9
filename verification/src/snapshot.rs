//! Snapshot metadata as the durable store records it. Opening the database,
//! the schema and the queries are a collaborator's concern outside the
//! library; the totals a snapshot carries are computed here.

use vstd::prelude::*;
use crate::scan::{ScanResult, spec_totals_fold, snapshot_totals};

verus! {

/// Snapshot metadata stored in the database.
#[derive(Debug)]
pub struct Snapshot {
    pub id: i64,
    pub timestamp: i64,
    pub total_bytes: u64,
    pub reclaimable_bytes: u64,
    pub scan_duration_ms: u128,
    pub peak_memory_bytes: Option<usize>,
}

/// The metadata row a finished scan persists as, with the given identity:
/// the saturating byte totals, the recorded duration (zero when none was
/// recorded), and the peak memory sample.
pub fn snapshot_metadata(result: &ScanResult, id: i64, timestamp: i64) -> (r: Snapshot)
    ensures
        r.id == id,
        r.timestamp == timestamp,
        (r.total_bytes as int, r.reclaimable_bytes as int) == spec_totals_fold(
            result.entries@,
            result.entries@.len() as int,
        ),
        r.scan_duration_ms == match result.duration_ms {
            Some(d) => d,
            None => 0u128,
        },
        r.peak_memory_bytes == result.peak_memory_bytes,
{
    let (total_bytes, reclaimable_bytes) = snapshot_totals(result);
    Snapshot {
        id,
        timestamp,
        total_bytes,
        reclaimable_bytes,
        scan_duration_ms: match result.duration_ms {
            Some(d) => d,
            None => 0,
        },
        peak_memory_bytes: result.peak_memory_bytes,
    }
}

} // verus!
