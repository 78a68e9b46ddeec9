//! The in-memory face of snapshot storage. Durable storage is a collaborator
//! outside the library; this module holds the snapshot value it exchanges
//! and the placeholder operations that report an empty store.

use vstd::prelude::*;
use crate::scan::ScanResult;

pub mod diff;

verus! {

/// One stored scan, as the store hands it back.
pub struct Snapshot {
    pub id: String,
    pub timestamp: i64,
    pub result: ScanResult,
}

/// Saving through the placeholder store keeps nothing and says so.
pub fn save(result: &ScanResult) -> (r: Option<String>)
    ensures
        r is None,
{
    let _ = result;
    None
}

/// Nothing is ever found in the placeholder store.
pub fn load(id: &str) -> (r: Option<Snapshot>)
    ensures
        r is None,
{
    let _ = id;
    None
}

pub fn list() -> (r: Vec<Snapshot>)
    ensures
        r@.len() == 0,
{
    Vec::new()
}

pub fn latest() -> (r: Option<Snapshot>)
    ensures
        r is None,
{
    None
}

} // verus!
