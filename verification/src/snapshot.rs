//! The sampler's per-tick computation: assembling one [`SystemStats`]
//! snapshot from a coherent set of plain readings.
//!
//! Querying the operating system and stamping the wall clock happen outside
//! the library; the sampler hands the raw numbers in and gets the fully
//! assembled, never-partial snapshot back.

use vstd::arithmetic::div_mod::{lemma_div_is_ordered, lemma_div_multiples_vanish};
use vstd::prelude::*;

use crate::types::{CPUCoreData, CPUUsageData, CoreReading, MemoryUsageData, SystemStats};

verus! {

/// Hundredths of a percent in the whole (100% is 10000).
pub const PERCENT_SCALE: u64 = 10000;

/// Sum of the `frequency` fields of a sequence of core readings.
pub open spec fn sum_frequencies(cores: Seq<CoreReading>) -> int
    decreases cores.len(),
{
    if cores.len() == 0 {
        0
    } else {
        sum_frequencies(cores.drop_last()) + cores.last().frequency
    }
}

/// Arithmetic mean of the `frequency` fields, rounded down; taken as 0 over
/// an empty core list (a host reporting zero logical cores yields 0 rather
/// than an error or an unspecified value).
pub open spec fn mean_frequency(cores: Seq<CoreReading>) -> int {
    if cores.len() == 0 {
        0
    } else {
        sum_frequencies(cores) / (cores.len() as int)
    }
}

/// `used / total * 100` in hundredths of a percent, rounded down. Taken as 0
/// when `total` is 0 (a degenerate reading, not an error) and saturating at
/// `u64::MAX` should `used` exceed `total` by more than the scale allows.
pub open spec fn usage_percent_of(used: u64, total: u64) -> int {
    if total == 0 {
        0
    } else if used * PERCENT_SCALE / (total as int) > u64::MAX {
        u64::MAX as int
    } else {
        used * PERCENT_SCALE / (total as int)
    }
}

/// Mean of the `frequency` fields of the readings, rounded down; 0 when no
/// cores are present.
pub fn average_frequency(readings: &Vec<CoreReading>) -> (r: u64)
    ensures
        r == mean_frequency(readings@),
{
    if readings.len() == 0 {
        return 0;
    }
    let mut sum: u128 = 0;
    let mut i: usize = 0;
    while i < readings.len()
        invariant
            i <= readings@.len(),
            sum == sum_frequencies(readings@.subrange(0, i as int)),
            sum <= i * (u64::MAX as int),
        decreases readings@.len() - i,
    {
        proof {
            let pre = readings@.subrange(0, i as int);
            let post = readings@.subrange(0, i + 1);
            assert(post.drop_last() =~= pre);
            assert(post.last() == readings@[i as int]);
        }
        sum = sum + readings[i].frequency as u128;
        i = i + 1;
    }
    proof {
        assert(readings@.subrange(0, readings@.len() as int) =~= readings@);
    }
    let n = readings.len() as u128;
    let q = sum / n;
    proof {
        let len = readings@.len() as int;
        lemma_div_is_ordered(sum as int, len * (u64::MAX as int), len);
        lemma_div_multiples_vanish(u64::MAX as int, len);
    }
    q as u64
}

/// `used / total * 100` in hundredths of a percent: the usage percent the
/// sampler stores in each snapshot's memory view, exactly reproducible from
/// the same snapshot's `used` and `total` fields.
pub fn memory_usage_percent(used: u64, total: u64) -> (r: u64)
    ensures
        r == usage_percent_of(used, total),
{
    if total == 0 {
        return 0;
    }
    proof {
        assert((used as u128) * (PERCENT_SCALE as u128) <= u64::MAX as u128 * 10000) by (nonlinear_arith)
            requires
                used <= u64::MAX,
                PERCENT_SCALE == 10000,
        ;
    }
    let scaled = (used as u128) * (PERCENT_SCALE as u128);
    let q = scaled / (total as u128);
    if q > u64::MAX as u128 {
        u64::MAX
    } else {
        q as u64
    }
}

/// Assemble one immutable snapshot from one coherent set of readings, as the
/// sampler does once per tick: the per-core list keeps the readings' order
/// and numbers them from 0, the average frequency is the mean of the
/// readings' frequencies, the memory usage percent is computed from `used`
/// and `total`, and the unimplemented platform details stay absent or zero
/// (`temperature` absent, `cache` and `buffers` zero).
pub fn assemble_snapshot(
    overall_cpu: u32,
    total_memory: u64,
    used_memory: u64,
    available_memory: u64,
    readings: &Vec<CoreReading>,
    timestamp: u64,
) -> (s: SystemStats)
    ensures
        s@.cpu.overall == overall_cpu,
        s@.cpu.temperature is None,
        s@.cpu.average_frequency == mean_frequency(readings@),
        s@.memory.total == total_memory,
        s@.memory.used == used_memory,
        s@.memory.available == available_memory,
        s@.memory.cache == 0,
        s@.memory.buffers == 0,
        s@.memory.usage_percent == usage_percent_of(used_memory, total_memory),
        s@.cores.len() == readings@.len(),
        forall|i: int|
            0 <= i < readings@.len() ==> s@.cores[i] == (CPUCoreData {
                core_id: i as usize,
                usage: readings@[i].usage,
                frequency: readings@[i].frequency,
            }),
        s@.timestamp == timestamp,
{
    let average_frequency = average_frequency(readings);
    let usage_percent = memory_usage_percent(used_memory, total_memory);
    let mut cores: Vec<CPUCoreData> = Vec::new();
    let mut i: usize = 0;
    while i < readings.len()
        invariant
            i <= readings@.len(),
            cores@.len() == i,
            forall|j: int|
                0 <= j < i ==> cores@[j] == (CPUCoreData {
                    core_id: j as usize,
                    usage: readings@[j].usage,
                    frequency: readings@[j].frequency,
                }),
        decreases readings@.len() - i,
    {
        let reading = readings[i];
        cores.push(CPUCoreData { core_id: i, usage: reading.usage, frequency: reading.frequency });
        i = i + 1;
    }
    SystemStats {
        cpu: CPUUsageData {
            overall: overall_cpu,
            temperature: None,
            average_frequency,
        },
        memory: MemoryUsageData {
            total: total_memory,
            used: used_memory,
            available: available_memory,
            cache: 0,
            buffers: 0,
            usage_percent,
        },
        cores,
        timestamp,
    }
}

} // verus!
