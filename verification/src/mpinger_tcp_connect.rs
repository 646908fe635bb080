//! The TCP-connect prober: the time a connection takes to be established.

use crate::ambient::unix_now;
use crate::probe::{
    after_probe, begun, elapsed_nanos, elapsed_since, initial_state, millis_of, reported,
    stopped, whole_millis, ActionView, EventView, Phase, ProbeAction, ProbeEvent, ProbeRun,
    ProbeState, Readings, RunView, SocketKind,
};
use crate::types::{MPingDestination, MPingerConfig, MPingerType};
use vstd::prelude::*;

verus! {

/// A worker that probes one destination by connecting to it.
pub struct MPingerTCPConnect {
    run: ProbeRun,
    state: ProbeState,
}

impl MPingerTCPConnect {
    /// What the worker was started with.
    pub closed spec fn run(&self) -> RunView {
        self.run@
    }

    /// Where the worker stands.
    pub closed spec fn state(&self) -> ProbeState {
        self.state
    }

    /// The socket that every probe opens anew.
    pub open spec fn open(run: RunView, state: ProbeState) -> (ProbeState, ActionView) {
        (
            ProbeState { phase: Phase::Opening, ..state },
            ActionView::OpenSocket { kind: SocketKind::Stream, timeout_ms: run.config.timeout },
        )
    }

    /// One step of the TCP-connect prober.
    ///
    /// Each probe opens a fresh socket; while that fails it is tried again,
    /// and nothing is reported or counted. The probe begins as the connect is
    /// asked for. A connect that succeeds is reported with the time since
    /// the probe began in milliseconds; one that fails is reported with a
    /// duration of zero. Neither record is marked as an error. The socket is
    /// then shut down, the probe is counted, and the worker sleeps or stops.
    pub open spec fn transition(
        run: RunView,
        state: ProbeState,
        event: EventView,
        readings: Readings,
    ) -> (ProbeState, ActionView) {
        match state.phase {
            Phase::Idle | Phase::Sleeping => Self::open(run, state),
            Phase::Opening => match event {
                EventView::Failed => Self::open(run, state),
                _ => (
                    begun(state, Phase::Connecting, readings),
                    ActionView::Connect { to: run.dest.sock_addr, timeout_ms: run.config.timeout },
                ),
            },
            Phase::Connecting => match event {
                EventView::Failed => reported(
                    run,
                    state,
                    Phase::Reporting,
                    MPingerType::TCPConnect,
                    0,
                    false,
                ),
                _ => reported(
                    run,
                    state,
                    Phase::Reporting,
                    MPingerType::TCPConnect,
                    whole_millis(elapsed_nanos(state.started_at, readings.at)),
                    false,
                ),
            },
            Phase::Reporting => (
                ProbeState { phase: Phase::Closing, ..state },
                ActionView::Shutdown,
            ),
            Phase::Closing => after_probe(run, state),
            _ => stopped(state),
        }
    }

    /// Creates the worker for `dest`. It has done nothing yet; its first
    /// step takes [`ProbeEvent::Done`].
    pub fn start(config: MPingerConfig, dest: &MPingDestination, count: usize) -> (worker:
        MPingerTCPConnect)
        ensures
            worker.run() == (RunView { config, dest: dest@, count }),
            worker.state() == initial_state(),
    {
        MPingerTCPConnect { run: ProbeRun::new(config, dest, count), state: ProbeState::new() }
    }

    fn open_socket(&mut self) -> (action: ProbeAction)
        ensures
            final(self).run() == old(self).run(),
            (final(self).state(), action@) == Self::open(old(self).run(), old(self).state()),
    {
        self.state.phase = Phase::Opening;
        ProbeAction::OpenSocket { kind: SocketKind::Stream, timeout_ms: self.run.config.timeout }
    }

    fn report(&mut self, duration: u64) -> (action: ProbeAction)
        ensures
            final(self).run() == old(self).run(),
            (final(self).state(), action@) == reported(
                old(self).run(),
                old(self).state(),
                Phase::Reporting,
                MPingerType::TCPConnect,
                duration,
                false,
            ),
    {
        self.run.report(&mut self.state, Phase::Reporting, MPingerType::TCPConnect, duration, false)
    }

    /// Takes one step with the given readings.
    pub fn advance(&mut self, event: &ProbeEvent, readings: Readings) -> (action: ProbeAction)
        ensures
            final(self).run() == old(self).run(),
            (final(self).state(), action@) == Self::transition(
                old(self).run(),
                old(self).state(),
                event@,
                readings,
            ),
    {
        match self.state.phase {
            Phase::Idle | Phase::Sleeping => self.open_socket(),
            Phase::Opening => match event {
                ProbeEvent::Failed => self.open_socket(),
                _ => {
                    self.state.begin(Phase::Connecting, readings);
                    ProbeAction::Connect {
                        to: self.run.dest.sock_addr,
                        timeout_ms: self.run.config.timeout,
                    }
                },
            },
            Phase::Connecting => match event {
                ProbeEvent::Failed => self.report(0),
                _ => {
                    let duration = millis_of(elapsed_since(self.state.started_at, readings.at));
                    self.report(duration)
                },
            },
            Phase::Reporting => {
                self.state.phase = Phase::Closing;
                ProbeAction::Shutdown
            },
            Phase::Closing => self.run.finish_probe(&mut self.state),
            _ => self.state.stop(),
        }
    }

    /// Reads what a step takes from outside: the wall clock.
    pub fn read(&mut self, at: u128) -> (readings: Readings)
        ensures
            final(self).run() == old(self).run(),
            final(self).state() == old(self).state(),
            readings.at == at,
            readings.latency == 0,
    {
        Readings { at, now: unix_now(), identifier: 0, latency: 0 }
    }

    /// Takes one step: the outcome `event` of the action asked for last,
    /// observed when the monotonic clock stood at `at` nanoseconds, against
    /// the next action.
    pub fn step(&mut self, event: &ProbeEvent, at: u128) -> (action: ProbeAction)
        ensures
            final(self).run() == old(self).run(),
            exists|readings: Readings|
                readings.at == at && #[trigger] Self::transition(
                    old(self).run(),
                    old(self).state(),
                    event@,
                    readings,
                ) == (final(self).state(), action@),
    {
        let readings = self.read(at);
        self.advance(event, readings)
    }
}

} // verus!
