//! The random prober: no network traffic, a latency drawn at random. It
//! serves to try out the engine and its consumer.

use crate::ambient::{draw_between, seeded_generator, unix_now};
use crate::probe::{
    after_probe, begun, initial_state, record_of, stopped, ActionView, EventView, Phase,
    ProbeAction, ProbeEvent, ProbeRun, ProbeState, Readings, RunView,
};
use crate::types::{MPingDestination, MPingerConfig, MPingerType};
use rand::rngs::StdRng;
use vstd::prelude::*;

verus! {

/// The largest latency that is drawn, in milliseconds.
pub const MAX_RANDOM_LATENCY: u64 = 300;

/// A worker that reports random latencies for one destination.
pub struct MPingerRnd {
    run: ProbeRun,
    state: ProbeState,
    generator: StdRng,
}

impl MPingerRnd {
    /// What the worker was started with.
    pub closed spec fn run(&self) -> RunView {
        self.run@
    }

    /// Where the worker stands.
    pub closed spec fn state(&self) -> ProbeState {
        self.state
    }

    /// One step of the random prober. Each probe is a single record: no
    /// error, the latency of `readings` as its duration. Then the probe is
    /// counted, and the worker sleeps or stops.
    pub open spec fn transition(
        run: RunView,
        state: ProbeState,
        event: EventView,
        readings: Readings,
    ) -> (ProbeState, ActionView) {
        match state.phase {
            Phase::Idle | Phase::Sleeping => {
                let reporting = begun(state, Phase::Reporting, readings);
                (
                    reporting,
                    ActionView::Emit(
                        record_of(run, reporting, MPingerType::Rnd, readings.latency, false),
                    ),
                )
            },
            Phase::Reporting => after_probe(run, state),
            _ => stopped(state),
        }
    }

    /// Creates the worker for `dest`. It has done nothing yet; its first
    /// step takes [`ProbeEvent::Done`].
    pub fn start(config: MPingerConfig, dest: &MPingDestination, count: usize) -> (worker:
        MPingerRnd)
        ensures
            worker.run() == (RunView { config, dest: dest@, count }),
            worker.state() == initial_state(),
    {
        MPingerRnd {
            run: ProbeRun::new(config, dest, count),
            state: ProbeState::new(),
            generator: seeded_generator(),
        }
    }

    /// Takes one step with the given readings.
    pub fn advance(&mut self, event: &ProbeEvent, readings: Readings) -> (action: ProbeAction)
        ensures
            final(self).run() == old(self).run(),
            (final(self).state(), action@) == Self::transition(
                old(self).run(),
                old(self).state(),
                event@,
                readings,
            ),
    {
        match self.state.phase {
            Phase::Idle | Phase::Sleeping => {
                self.state.begin(Phase::Reporting, readings);
                ProbeAction::Emit(
                    self.run.record(&self.state, MPingerType::Rnd, readings.latency, false),
                )
            },
            Phase::Reporting => self.run.finish_probe(&mut self.state),
            _ => self.state.stop(),
        }
    }

    /// Reads what a step takes from outside: the wall clock and, where a
    /// probe begins, a latency of at most [`MAX_RANDOM_LATENCY`].
    pub fn read(&mut self, at: u128) -> (readings: Readings)
        ensures
            final(self).run() == old(self).run(),
            final(self).state() == old(self).state(),
            readings.at == at,
            readings.latency <= MAX_RANDOM_LATENCY,
    {
        let latency = match self.state.phase {
            Phase::Idle | Phase::Sleeping => draw_between(
                &mut self.generator,
                0,
                MAX_RANDOM_LATENCY,
            ),
            _ => 0,
        };
        Readings { at, now: unix_now(), identifier: 0, latency }
    }

    /// Takes one step: the outcome `event` of the action asked for last,
    /// observed when the monotonic clock stood at `at` nanoseconds, against
    /// the next action.
    pub fn step(&mut self, event: &ProbeEvent, at: u128) -> (action: ProbeAction)
        ensures
            final(self).run() == old(self).run(),
            exists|readings: Readings|
                readings.at == at && readings.latency <= MAX_RANDOM_LATENCY
                    && #[trigger] Self::transition(
                    old(self).run(),
                    old(self).state(),
                    event@,
                    readings,
                ) == (final(self).state(), action@),
    {
        let readings = self.read(at);
        self.advance(event, readings)
    }
}

} // verus!
