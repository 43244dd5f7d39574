//! From two readings of a counter to a rate.
//!
//! The kernel's counters only ever grow. A rate is the growth between two
//! samples over the time between them. Rates are exact integers: usage in
//! thousandths of a percent, throughput in thousandths of a bit per second,
//! both rounded down.

use crate::cpu::CpuSample;
use vstd::prelude::*;

verus! {

/// The counters of one network interface at one moment.
#[derive(Clone, Copy, Debug, PartialEq, Eq, Structural)]
pub struct NetworkSample {
    /// Milliseconds on a clock that never runs backwards.
    pub now: u64,
    /// Bytes received since boot.
    pub rx: u64,
    /// Bytes sent since boot.
    pub tx: u64,
}

impl Default for NetworkSample {
    fn default() -> (sample: NetworkSample)
        ensures
            sample == (NetworkSample { now: 0, rx: 0, tx: 0 }),
    {
        NetworkSample { now: 0, rx: 0, tx: 0 }
    }
}

/// How far a CPU's counter of all ticks has moved between two samples.
pub open spec fn diff_total(previous: CpuSample, current: CpuSample) -> int {
    current.total - previous.total
}

/// How far a CPU's counter of busy ticks has moved between two samples.
pub open spec fn diff_used(previous: CpuSample, current: CpuSample) -> int {
    current.used - previous.used
}

/// The share of the time between two samples that a CPU was busy, in
/// thousandths of a percent, rounded down.
///
/// Where no time has passed the usage is 0. A counter that has gone back has
/// been reset: the current sample is then a new baseline, and the usage 0.
pub open spec fn usage(previous: CpuSample, current: CpuSample) -> nat {
    if diff_total(previous, current) <= 0 || diff_used(previous, current) < 0 {
        0
    } else {
        (100_000 * diff_used(previous, current) / diff_total(previous, current)) as nat
    }
}

/// The growth of a byte counter over `elapsed` milliseconds, in thousandths
/// of a bit per second, rounded down: eight bits to the byte, a thousand
/// milliseconds to the second, a thousand thousandths to the unit.
///
/// Where no time has passed the rate is 0, as it is where the counter has
/// gone back, which makes the current sample a new baseline.
pub open spec fn rate(previous: u64, current: u64, elapsed: u64) -> nat {
    if current < previous || elapsed == 0 {
        0
    } else {
        ((current - previous) * 8_000_000 / (elapsed as int)) as nat
    }
}

/// The rates received and sent between two samples of an interface.
///
/// A previous sample whose counters are both 0 is no sample at all: the
/// interface has not been read before, or its counters were reset. Both
/// rates are then 0, whatever the current sample holds. They are 0 as well
/// where the clock has gone back.
pub open spec fn rates(previous: NetworkSample, current: NetworkSample) -> (nat, nat) {
    if (previous.rx == 0 && previous.tx == 0) || current.now < previous.now {
        (0, 0)
    } else {
        (
            rate(previous.rx, current.rx, (current.now - previous.now) as u64),
            rate(previous.tx, current.tx, (current.now - previous.now) as u64),
        )
    }
}

/// How long to sleep after a tick that began at `started` and ended at
/// `finished`, so that ticks begin `period` apart: what is left of the
/// interval, or `None` where nothing is. All in milliseconds.
pub open spec fn pause(period: u64, started: u64, finished: u64) -> Option<u64> {
    if started + period >= finished && started + period - finished <= u64::MAX {
        Some((started + period - finished) as u64)
    } else {
        None
    }
}

/// Usage is never above 100 percent where the busy ticks have not grown by
/// more than all ticks, and is 0 where no ticks have passed.
pub proof fn lemma_usage_is_a_share(previous: CpuSample, current: CpuSample)
    ensures
        diff_total(previous, current) == 0 ==> usage(previous, current) == 0,
        diff_used(previous, current) <= diff_total(previous, current) ==> usage(previous, current)
            <= 100_000,
{
    let total = diff_total(previous, current);
    let used = diff_used(previous, current);
    if total > 0 && 0 <= used <= total {
        assert(100_000 * used / total <= 100_000) by (nonlinear_arith)
            requires
                total > 0,
                0 <= used <= total,
        ;
    }
}

/// A rate is the growth in thousandths of a bit, divided by the seconds
/// that passed, to the thousandth below: it times the milliseconds is at
/// most the growth in bits times a million, and the next thousandth would be
/// more.
pub proof fn lemma_rate_is_exact(previous: u64, current: u64, elapsed: u64)
    requires
        previous <= current,
        elapsed > 0,
    ensures
        rate(previous, current, elapsed) * elapsed <= (current - previous) * 8 * 1_000_000,
        (current - previous) * 8 * 1_000_000 < (rate(previous, current, elapsed) + 1) * elapsed,
{
    let grown = (current - previous) * 8_000_000;
    let time = elapsed as int;
    assert(grown == (grown / time) * time + grown % time && 0 <= grown % time < time) by (nonlinear_arith)
        requires
            time > 0,
            grown >= 0,
    ;
    assert((grown / time + 1) * time == (grown / time) * time + time) by (nonlinear_arith);
    assert(grown / time >= 0) by (nonlinear_arith)
        requires
            time > 0,
            grown >= 0,
    ;
}

/// The first sample of an interface gives no rate.
pub proof fn lemma_first_sample_has_no_rate(previous: NetworkSample, current: NetworkSample)
    requires
        previous.rx == 0,
        previous.tx == 0,
    ensures
        rates(previous, current) == (0nat, 0nat),
{
}

/// The share of the time between two samples that a CPU was busy, in
/// thousandths of a percent.
pub fn cpu_usage(previous: CpuSample, current: CpuSample) -> (share: u128)
    ensures
        share == usage(previous, current),
        diff_total(previous, current) == 0 ==> share == 0,
        diff_used(previous, current) <= diff_total(previous, current) ==> share <= 100_000,
{
    proof {
        lemma_usage_is_a_share(previous, current);
    }
    if current.total <= previous.total || current.used < previous.used {
        0
    } else {
        let total: u128 = (current.total - previous.total) as u128;
        let used: u128 = (current.used - previous.used) as u128;
        100_000 * used / total
    }
}

/// The growth of a byte counter over `elapsed` milliseconds, in thousandths
/// of a bit per second.
pub fn bit_rate(previous: u64, current: u64, elapsed: u64) -> (speed: u128)
    ensures
        speed == rate(previous, current, elapsed),
{
    if current < previous || elapsed == 0 {
        0
    } else {
        let grown: u128 = (current - previous) as u128;
        grown * 8_000_000 / (elapsed as u128)
    }
}

/// The rates received and sent between two samples of an interface, in
/// thousandths of a bit per second.
pub fn network_rates(previous: NetworkSample, current: NetworkSample) -> (speeds: (u128, u128))
    ensures
        (speeds.0 as nat, speeds.1 as nat) == rates(previous, current),
        previous.rx == 0 && previous.tx == 0 ==> speeds == (0u128, 0u128),
{
    if (previous.rx == 0 && previous.tx == 0) || current.now < previous.now {
        (0, 0)
    } else {
        let elapsed = current.now - previous.now;
        (bit_rate(previous.rx, current.rx, elapsed), bit_rate(previous.tx, current.tx, elapsed))
    }
}

/// How long to sleep after a tick, in milliseconds.
pub fn interval(period: u64, started: u64, finished: u64) -> (sleep: Option<u64>)
    ensures
        sleep == pause(period, started, finished),
{
    match started.checked_add(period) {
        Some(next) => if next >= finished {
            Some(next - finished)
        } else {
            None
        },
        None => {
            let next: u128 = started as u128 + period as u128;
            let left: u128 = next - finished as u128;
            if left <= u64::MAX as u128 {
                Some(left as u64)
            } else {
                None
            }
        },
    }
}

} // verus!
