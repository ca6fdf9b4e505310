//! The state that the sampling loop carries from one tick to the next.

use crate::stat::counters::parse_proc_stat;
use crate::stat::usage::usage_hundredths;
use crate::stat::{CpuUsageInfo, ParseError, Percent, Stat};
use vstd::prelude::*;

verus! {

/// The time between two ticks, in seconds.
pub const TICK_SECONDS: u64 = 1;

/// The counters of the last successful read. Each tick measures against them and then
/// puts its own counters in their place.
#[derive(Debug, Clone, Copy, PartialEq, Eq)]
pub struct Sampler {
    pub previous: CpuUsageInfo,
}

impl Sampler {
    /// Takes the first sample. Without it there is nothing to measure against, so a
    /// text that gives no counters gives no sampler.
    pub fn start(stat_text: &str) -> (r: Result<Sampler, ParseError>)
        ensures
            match parse_proc_stat(stat_text@) {
                Ok(counters) => r == Ok::<Sampler, ParseError>(Sampler { previous: counters }),
                Err(error) => r == Err::<Sampler, ParseError>(error),
            },
    {
        match Stat::read_proc_stat(stat_text) {
            Ok(counters) => Ok(Sampler { previous: counters }),
            Err(error) => Err(error),
        }
    }

    /// One tick: reads the counters from `stat_text`, estimates the usage since the
    /// previous counters and keeps the new counters for the next tick. A text that
    /// gives no counters fails the tick and leaves the previous counters in place.
    pub fn tick(&mut self, stat_text: &str) -> (r: Result<Percent, ParseError>)
        ensures
            match parse_proc_stat(stat_text@) {
                Ok(current) => {
                    &&& r matches Ok(usage)
                    &&& usage.hundredths == usage_hundredths(current, old(self).previous)
                    &&& final(self).previous == current
                },
                Err(error) => r == Err::<Percent, ParseError>(error) && *final(self) == *old(self),
            },
    {
        match Stat::read_proc_stat(stat_text) {
            Ok(current) => {
                let usage = Stat::calculate_cpu_usage(current, self.previous);
                self.previous = current;
                Ok(usage)
            },
            Err(error) => Err(error),
        }
    }
}

} // verus!
