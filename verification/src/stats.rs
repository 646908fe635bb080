//! What a consumer keeps of the records of one destination: how many
//! probes, how many timeouts, the fastest and the slowest, and the mean of
//! the most recent ones.

use crate::average::{AverageModel, RunningAverage};
use vstd::prelude::*;

verus! {

/// The number of durations that the mean of one destination covers.
pub const MAX_AVG_PINGS: usize = 100;

/// The smaller of a duration and the smallest one before it, if there was
/// one.
pub open spec fn least(before: Option<u64>, duration: u64) -> Option<u64> {
    match before {
        Some(least) if least <= duration => Some(least),
        _ => Some(duration),
    }
}

/// The larger of a duration and the largest one before it, if there was one.
pub open spec fn greatest(before: Option<u64>, duration: u64) -> Option<u64> {
    match before {
        Some(greatest) if greatest >= duration => Some(greatest),
        _ => Some(duration),
    }
}

/// What [`PingStats`] holds.
pub struct StatsView {
    pub idx: usize,
    pub label: Seq<char>,
    pub ping_type: Seq<char>,
    pub count: usize,
    pub timeouts: usize,
    pub min_ping: Option<u64>,
    pub max_ping: Option<u64>,
    pub avg_ping: AverageModel,
}

impl StatsView {
    /// The statistics after one more probe that was no error. The probe is
    /// counted. A duration of zero is a timeout and stays out of the mean;
    /// any other duration enters it. Either kind counts for the fastest and
    /// the slowest.
    pub open spec fn after(self, duration: u64) -> StatsView {
        StatsView {
            count: (self.count + 1) as usize,
            timeouts: if duration == 0 {
                (self.timeouts + 1) as usize
            } else {
                self.timeouts
            },
            min_ping: least(self.min_ping, duration),
            max_ping: greatest(self.max_ping, duration),
            avg_ping: if duration == 0 {
                self.avg_ping
            } else {
                self.avg_ping.after_add(duration)
            },
            ..self
        }
    }
}

/// The statistics of one destination.
pub struct PingStats {
    /// The number of the destination.
    pub idx: usize,
    /// The name under which the destination is shown.
    pub label: String,
    /// The name of the probe method.
    pub ping_type: String,
    /// The number of probes taken in.
    pub count: usize,
    /// The number of probes among them that timed out.
    pub timeouts: usize,
    /// The shortest duration, if there was a probe.
    pub min_ping: Option<u64>,
    /// The longest duration, if there was a probe.
    pub max_ping: Option<u64>,
    /// The mean of the most recent durations that were no timeouts.
    pub avg_ping: RunningAverage,
}

impl View for PingStats {
    type V = StatsView;

    open spec fn view(&self) -> StatsView {
        StatsView {
            idx: self.idx,
            label: self.label@,
            ping_type: self.ping_type@,
            count: self.count,
            timeouts: self.timeouts,
            min_ping: self.min_ping,
            max_ping: self.max_ping,
            avg_ping: self.avg_ping@,
        }
    }
}

impl PingStats {
    /// Statistics without a probe for the destination with the number `idx`,
    /// shown as `label`, probed by what `ping_type` names.
    pub fn new(idx: usize, label: &str, ping_type: &str) -> (stats: PingStats)
        ensures
            stats@ == (StatsView {
                idx,
                label: label@,
                ping_type: ping_type@,
                count: 0,
                timeouts: 0,
                min_ping: None,
                max_ping: None,
                avg_ping: AverageModel::empty(MAX_AVG_PINGS as nat),
            }),
    {
        PingStats {
            idx,
            label: label.to_owned(),
            ping_type: ping_type.to_owned(),
            count: 0,
            timeouts: 0,
            min_ping: None,
            max_ping: None,
            avg_ping: RunningAverage::new(MAX_AVG_PINGS),
        }
    }

    /// Takes in the duration of a probe that was no error.
    pub fn record(&mut self, duration: u64)
        requires
            old(self).count < usize::MAX,
            old(self).timeouts < usize::MAX,
        ensures
            final(self)@ == old(self)@.after(duration),
    {
        self.count = self.count + 1;
        if duration == 0 {
            self.timeouts = self.timeouts + 1;
        } else {
            self.avg_ping.add(duration);
        }
        let lower = match self.min_ping {
            Some(least) => duration < least,
            None => true,
        };
        if lower {
            self.min_ping = Some(duration);
        }
        let higher = match self.max_ping {
            Some(greatest) => duration > greatest,
            None => true,
        };
        if higher {
            self.max_ping = Some(duration);
        }
    }
}

} // verus!
