//! The UDP prober: a datagram that says `ping`, and the time until anything
//! comes back.

use crate::ambient::unix_now;
use crate::probe::{
    after_probe, begun, elapsed_nanos, elapsed_since, initial_state, micros_of, reported,
    stopped, whole_micros, ActionView, EventView, Phase, ProbeAction, ProbeEvent, ProbeRun,
    ProbeState, Readings, RunView, SocketKind,
};
use crate::types::{MPingDestination, MPingerConfig, MPingerType};
use vstd::prelude::*;

verus! {

/// Size in bytes of the buffer a reply is received into.
pub const UDP_BUFFER_SIZE: usize = 1024;

/// The request: the four ASCII bytes of `ping`.
pub open spec fn udp_request() -> Seq<u8> {
    seq![112u8, 105u8, 110u8, 103u8]
}

/// A worker that probes one destination over UDP.
pub struct MPingerUDP {
    run: ProbeRun,
    state: ProbeState,
}

impl MPingerUDP {
    /// What the worker was started with.
    pub closed spec fn run(&self) -> RunView {
        self.run@
    }

    /// Where the worker stands.
    pub closed spec fn state(&self) -> ProbeState {
        self.state
    }

    /// The socket that every probe opens anew.
    pub open spec fn open(run: RunView, state: ProbeState) -> (ProbeState, ActionView) {
        (
            ProbeState { phase: Phase::Opening, ..state },
            ActionView::OpenSocket { kind: SocketKind::Datagram, timeout_ms: run.config.timeout },
        )
    }

    /// One step of the UDP prober.
    ///
    /// Each probe opens a fresh socket; while that fails it is tried again,
    /// and nothing is reported or counted. The probe begins as the request
    /// is sent. A send that fails is reported as an error. Otherwise one
    /// receive follows: any datagram makes the probe a success, whose
    /// duration is the time since the probe began in microseconds; a receive
    /// that fails is reported as an error. After the record the probe is
    /// counted, and the worker sleeps or stops.
    pub open spec fn transition(
        run: RunView,
        state: ProbeState,
        event: EventView,
        readings: Readings,
    ) -> (ProbeState, ActionView) {
        match state.phase {
            Phase::Idle | Phase::Sleeping => Self::open(run, state),
            Phase::Opening => match event {
                EventView::Failed => Self::open(run, state),
                _ => (
                    begun(state, Phase::Sending, readings),
                    ActionView::Send { payload: udp_request(), to: run.dest.sock_addr },
                ),
            },
            Phase::Sending => match event {
                EventView::Failed => reported(
                    run,
                    state,
                    Phase::Reporting,
                    MPingerType::UDPPing,
                    0,
                    true,
                ),
                _ => (
                    ProbeState { phase: Phase::Receiving, ..state },
                    ActionView::Receive { capacity: UDP_BUFFER_SIZE },
                ),
            },
            Phase::Receiving => match event {
                EventView::Received(_) => reported(
                    run,
                    state,
                    Phase::Reporting,
                    MPingerType::UDPPing,
                    whole_micros(elapsed_nanos(state.started_at, readings.at)),
                    false,
                ),
                _ => reported(run, state, Phase::Reporting, MPingerType::UDPPing, 0, true),
            },
            Phase::Reporting => after_probe(run, state),
            _ => stopped(state),
        }
    }

    /// Creates the worker for `dest`. It has done nothing yet; its first
    /// step takes [`ProbeEvent::Done`].
    pub fn start(config: MPingerConfig, dest: &MPingDestination, count: usize) -> (worker:
        MPingerUDP)
        ensures
            worker.run() == (RunView { config, dest: dest@, count }),
            worker.state() == initial_state(),
    {
        MPingerUDP { run: ProbeRun::new(config, dest, count), state: ProbeState::new() }
    }

    fn open_socket(&mut self) -> (action: ProbeAction)
        ensures
            final(self).run() == old(self).run(),
            (final(self).state(), action@) == Self::open(old(self).run(), old(self).state()),
    {
        self.state.phase = Phase::Opening;
        ProbeAction::OpenSocket { kind: SocketKind::Datagram, timeout_ms: self.run.config.timeout }
    }

    fn report(&mut self, duration: u64, is_error: bool) -> (action: ProbeAction)
        ensures
            final(self).run() == old(self).run(),
            (final(self).state(), action@) == reported(
                old(self).run(),
                old(self).state(),
                Phase::Reporting,
                MPingerType::UDPPing,
                duration,
                is_error,
            ),
    {
        self.run.report(&mut self.state, Phase::Reporting, MPingerType::UDPPing, duration, is_error)
    }

    /// Takes one step with the given readings.
    pub fn advance(&mut self, event: &ProbeEvent, readings: Readings) -> (action: ProbeAction)
        ensures
            final(self).run() == old(self).run(),
            (final(self).state(), action@) == Self::transition(
                old(self).run(),
                old(self).state(),
                event@,
                readings,
            ),
    {
        match self.state.phase {
            Phase::Idle | Phase::Sleeping => self.open_socket(),
            Phase::Opening => match event {
                ProbeEvent::Failed => self.open_socket(),
                _ => {
                    self.state.begin(Phase::Sending, readings);
                    let payload: Vec<u8> = vec![112u8, 105u8, 110u8, 103u8];
                    assert(payload@ =~= udp_request());
                    ProbeAction::Send { payload, to: self.run.dest.sock_addr }
                },
            },
            Phase::Sending => match event {
                ProbeEvent::Failed => self.report(0, true),
                _ => {
                    self.state.phase = Phase::Receiving;
                    ProbeAction::Receive { capacity: UDP_BUFFER_SIZE }
                },
            },
            Phase::Receiving => match event {
                ProbeEvent::Received(_) => {
                    let duration = micros_of(elapsed_since(self.state.started_at, readings.at));
                    self.report(duration, false)
                },
                _ => self.report(0, true),
            },
            Phase::Reporting => self.run.finish_probe(&mut self.state),
            _ => self.state.stop(),
        }
    }

    /// Reads what a step takes from outside: the wall clock.
    pub fn read(&mut self, at: u128) -> (readings: Readings)
        ensures
            final(self).run() == old(self).run(),
            final(self).state() == old(self).state(),
            readings.at == at,
            readings.latency == 0,
    {
        Readings { at, now: unix_now(), identifier: 0, latency: 0 }
    }

    /// Takes one step: the outcome `event` of the action asked for last,
    /// observed when the monotonic clock stood at `at` nanoseconds, against
    /// the next action.
    pub fn step(&mut self, event: &ProbeEvent, at: u128) -> (action: ProbeAction)
        ensures
            final(self).run() == old(self).run(),
            exists|readings: Readings|
                readings.at == at && #[trigger] Self::transition(
                    old(self).run(),
                    old(self).state(),
                    event@,
                    readings,
                ) == (final(self).state(), action@),
    {
        let readings = self.read(at);
        self.advance(event, readings)
    }
}

} // verus!
