//! The snapshot model: immutable value types for one point-in-time reading.
//!
//! All quantities are plain integers: utilization percentages are carried in
//! hundredths of a percent (2500 is 25.00%), frequencies in MHz, memory in
//! bytes, the timestamp in milliseconds since the Unix epoch.

use vstd::prelude::*;

verus! {

/// Overall CPU utilization for one snapshot.
///
/// `overall` and a core's `usage` may momentarily exceed 100% (10000) due to
/// measurement granularity and are not clamped. `temperature` is in
/// hundredths of a degree and stays absent until a platform-specific reader
/// exists.
#[derive(Clone, Copy, PartialEq, Eq, Debug)]
pub struct CPUUsageData {
    /// Overall utilization, hundredths of a percent.
    pub overall: u32,
    /// Hundredths of a degree; absent (no platform reader implemented).
    pub temperature: Option<u32>,
    /// Arithmetic mean of the per-core frequencies, MHz.
    pub average_frequency: u64,
}

/// Memory totals for one snapshot, in bytes.
///
/// `cache` and `buffers` are always zero (unimplemented platform detail).
#[derive(Clone, Copy, PartialEq, Eq, Debug)]
pub struct MemoryUsageData {
    pub total: u64,
    pub used: u64,
    pub available: u64,
    pub cache: u64,
    pub buffers: u64,
    /// `used / total * 100`, in hundredths of a percent.
    pub usage_percent: u64,
}

/// One logical core's reading inside a snapshot.
#[derive(Clone, Copy, PartialEq, Eq, Debug)]
pub struct CPUCoreData {
    /// Zero-based index of the core within the snapshot's `cores` list.
    pub core_id: usize,
    /// Utilization, hundredths of a percent.
    pub usage: u32,
    /// Current frequency, MHz.
    pub frequency: u64,
}

/// A raw per-core reading as the metrics source hands it to the sampler,
/// before a core index is assigned.
#[derive(Clone, Copy, PartialEq, Eq, Debug)]
pub struct CoreReading {
    /// Utilization, hundredths of a percent.
    pub usage: u32,
    /// Current frequency, MHz.
    pub frequency: u64,
}

/// One immutable, fully assembled point-in-time system metrics reading.
#[derive(PartialEq, Eq, Debug)]
pub struct SystemStats {
    pub cpu: CPUUsageData,
    pub memory: MemoryUsageData,
    /// One entry per logical core, ordered by `core_id`.
    pub cores: Vec<CPUCoreData>,
    /// Milliseconds since the Unix epoch at assembly time.
    pub timestamp: u64,
}

/// The mathematical content of a [`SystemStats`]: the same fields with the
/// core list as a sequence. Two snapshots with equal views hold the same
/// published value, compared by content.
#[verifier::ext_equal]
pub struct StatsView {
    pub cpu: CPUUsageData,
    pub memory: MemoryUsageData,
    pub cores: Seq<CPUCoreData>,
    pub timestamp: u64,
}

impl View for SystemStats {
    type V = StatsView;

    open spec fn view(&self) -> StatsView {
        StatsView {
            cpu: self.cpu,
            memory: self.memory,
            cores: self.cores@,
            timestamp: self.timestamp,
        }
    }
}

impl Clone for SystemStats {
    /// A clone carries exactly the same content.
    fn clone(&self) -> (r: Self)
        ensures
            r@ == self@,
    {
        let mut cores: Vec<CPUCoreData> = Vec::new();
        let mut i: usize = 0;
        while i < self.cores.len()
            invariant
                i <= self.cores@.len(),
                cores@ == self.cores@.subrange(0, i as int),
            decreases self.cores@.len() - i,
        {
            cores.push(self.cores[i]);
            i = i + 1;
        }
        proof {
            assert(cores@ =~= self.cores@);
        }
        let r = SystemStats {
            cpu: self.cpu,
            memory: self.memory,
            cores,
            timestamp: self.timestamp,
        };
        proof {
            assert(r@ =~= self@);
        }
        r
    }
}

} // verus!
