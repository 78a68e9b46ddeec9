//! The scan report and the orchestration records: detector outcomes merge
//! into one report, each detector's wall time and memory growth is recorded,
//! a skipped detector leaves a diagnostic, and no detector's failure affects
//! another's entry. The loop that runs real detectors drives these steps
//! from outside the library.

use vstd::prelude::*;
use crate::detector::{BloatEntry, DetectorResult, entries_view};

verus! {

/// The aggregate of one whole scan: every detector's findings and
/// diagnostics, overall duration, and the per-detector instrumentation.
pub struct ScanResult {
    pub entries: Vec<BloatEntry>,
    pub diagnostics: Vec<String>,
    pub duration_ms: Option<u128>,
    pub detector_timings: Vec<(String, u128)>,
    pub peak_memory_bytes: Option<usize>,
    pub detector_memory: Vec<(String, usize)>,
}

pub open spec fn timings_view(v: Seq<(String, u128)>) -> Seq<(Seq<char>, u128)> {
    v.map_values(|t: (String, u128)| (t.0@, t.1))
}

pub open spec fn memory_view(v: Seq<(String, usize)>) -> Seq<(Seq<char>, usize)> {
    v.map_values(|t: (String, usize)| (t.0@, t.1))
}

/// The memory growth attributable to one detector: never negative, zero
/// when resident memory shrank while it ran.
pub open spec fn spec_memory_delta(before: usize, after: usize) -> usize {
    if after >= before {
        (after - before) as usize
    } else {
        0
    }
}

impl ScanResult {
    pub fn empty() -> (r: ScanResult)
        ensures
            r.entries@.len() == 0,
            r.diagnostics@.len() == 0,
            r.duration_ms is None,
            r.detector_timings@.len() == 0,
            r.peak_memory_bytes is None,
            r.detector_memory@.len() == 0,
    {
        ScanResult {
            entries: Vec::new(),
            diagnostics: Vec::new(),
            duration_ms: None,
            detector_timings: Vec::new(),
            peak_memory_bytes: None,
            detector_memory: Vec::new(),
        }
    }

    /// Fold one detector's outcome into the report: entries and diagnostics
    /// are concatenated, nothing else moves.
    pub fn merge(&mut self, result: DetectorResult)
        ensures
            final(self).entries@ == old(self).entries@ + result.entries@,
            final(self).diagnostics@ == old(self).diagnostics@ + result.diagnostics@,
            final(self).duration_ms == old(self).duration_ms,
            final(self).detector_timings@ == old(self).detector_timings@,
            final(self).peak_memory_bytes == old(self).peak_memory_bytes,
            final(self).detector_memory@ == old(self).detector_memory@,
    {
        let mut result = result;
        self.entries.append(&mut result.entries);
        self.diagnostics.append(&mut result.diagnostics);
    }

    /// Note the baseline memory sample; `None` means sampling is not
    /// available on this host and no deltas will be recorded.
    pub fn set_memory_baseline(&mut self, baseline: Option<usize>)
        ensures
            final(self).peak_memory_bytes == baseline,
            final(self).entries@ == old(self).entries@,
            final(self).diagnostics@ == old(self).diagnostics@,
            final(self).duration_ms == old(self).duration_ms,
            final(self).detector_timings@ == old(self).detector_timings@,
            final(self).detector_memory@ == old(self).detector_memory@,
    {
        self.peak_memory_bytes = baseline;
    }

    /// A detector skipped as unavailable: a diagnostic, never an error, and
    /// no effect on any other detector.
    pub fn record_skipped(&mut self, name: &str)
        ensures
            final(self).diagnostics.deep_view() == old(self).diagnostics.deep_view().push(
                name@ + ": skipped (not available on this platform)"@,
            ),
            final(self).entries@ == old(self).entries@,
            final(self).duration_ms == old(self).duration_ms,
            final(self).detector_timings@ == old(self).detector_timings@,
            final(self).peak_memory_bytes == old(self).peak_memory_bytes,
            final(self).detector_memory@ == old(self).detector_memory@,
    {
        let msg = String::from_str(name).concat(": skipped (not available on this platform)");
        let ghost pre = self.diagnostics.deep_view();
        self.diagnostics.push(msg);
        proof {
            assert(self.diagnostics.deep_view() =~= pre.push(
                name@ + ": skipped (not available on this platform)"@,
            ));
        }
    }

    /// One detector ran: record its wall time, its non-negative memory
    /// growth when sampling is on, raise the peak, and merge its outcome.
    pub fn record_detector(
        &mut self,
        name: &str,
        duration_ms: u128,
        memory: Option<(usize, usize)>,
        result: DetectorResult,
    )
        requires
            memory is Some ==> old(self).peak_memory_bytes is Some,
        ensures
            final(self).entries@ == old(self).entries@ + result.entries@,
            final(self).diagnostics@ == old(self).diagnostics@ + result.diagnostics@,
            timings_view(final(self).detector_timings@) == timings_view(
                old(self).detector_timings@,
            ).push((name@, duration_ms)),
            final(self).duration_ms == old(self).duration_ms,
            match memory {
                Some((before, after)) => {
                    &&& memory_view(final(self).detector_memory@) == memory_view(
                        old(self).detector_memory@,
                    ).push((name@, spec_memory_delta(before, after)))
                    &&& final(self).peak_memory_bytes == Some(
                        if old(self).peak_memory_bytes->Some_0 >= after {
                            old(self).peak_memory_bytes->Some_0
                        } else {
                            after
                        },
                    )
                },
                None => {
                    &&& final(self).detector_memory@ == old(self).detector_memory@
                    &&& final(self).peak_memory_bytes == old(self).peak_memory_bytes
                },
            },
    {
        let ghost pre_t = timings_view(self.detector_timings@);
        self.detector_timings.push((String::from_str(name), duration_ms));
        proof {
            assert(timings_view(self.detector_timings@) =~= pre_t.push((name@, duration_ms)));
        }
        match memory {
            Some((before, after)) => {
                let delta = after.saturating_sub(before);
                let ghost pre_m = memory_view(self.detector_memory@);
                self.detector_memory.push((String::from_str(name), delta));
                proof {
                    assert(memory_view(self.detector_memory@) =~= pre_m.push(
                        (name@, spec_memory_delta(before, after)),
                    ));
                }
                match self.peak_memory_bytes {
                    Some(current_peak) => {
                        self.peak_memory_bytes = Some(
                            if current_peak >= after {
                                current_peak
                            } else {
                                after
                            },
                        );
                    },
                    None => {
                        assert(false);
                    },
                }
            },
            None => {},
        }
        self.merge(result);
    }

    /// The whole orchestration's elapsed wall time.
    pub fn set_duration(&mut self, duration_ms: u128)
        ensures
            final(self).duration_ms == Some(duration_ms),
            final(self).entries@ == old(self).entries@,
            final(self).diagnostics@ == old(self).diagnostics@,
            final(self).detector_timings@ == old(self).detector_timings@,
            final(self).peak_memory_bytes == old(self).peak_memory_bytes,
            final(self).detector_memory@ == old(self).detector_memory@,
    {
        self.duration_ms = Some(duration_ms);
    }
}

/// The byte totals a report sums to, saturating: all bytes found, and the
/// reclaimable part.
pub open spec fn spec_totals_fold(entries: Seq<BloatEntry>, upto: int) -> (int, int)
    decreases upto,
{
    if upto <= 0 {
        (0, 0)
    } else {
        let (t, r) = spec_totals_fold(entries, upto - 1);
        let e = entries[upto - 1];
        (
            if t + e.size_bytes > u64::MAX {
                u64::MAX as int
            } else {
                t + e.size_bytes
            },
            if r + e.reclaimable_bytes > u64::MAX {
                u64::MAX as int
            } else {
                r + e.reclaimable_bytes
            },
        )
    }
}

/// Sum a report's sizes for snapshot metadata, saturating at `u64::MAX`.
pub fn snapshot_totals(result: &ScanResult) -> (r: (u64, u64))
    ensures
        (r.0 as int, r.1 as int) == spec_totals_fold(
            result.entries@,
            result.entries@.len() as int,
        ),
{
    let mut total: u64 = 0;
    let mut reclaimable: u64 = 0;
    let mut i: usize = 0;
    while i < result.entries.len()
        invariant
            i <= result.entries@.len(),
            (total as int, reclaimable as int) == spec_totals_fold(result.entries@, i as int),
        decreases result.entries@.len() - i,
    {
        total = total.saturating_add(result.entries[i].size_bytes);
        reclaimable = reclaimable.saturating_add(result.entries[i].reclaimable_bytes);
        i = i + 1;
    }
    (total, reclaimable)
}

} // verus!
