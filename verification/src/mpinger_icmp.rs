//! The ICMP prober: Echo Requests over a raw socket, each matched with its
//! reply by a random identifier and a running sequence number.

use crate::ambient::{fresh_identifier, unix_now};
use crate::echo::{
    build_icmp_echo_request, echo_request, is_echo_reply_to, is_valid_icmp_echo_response,
    ICMP_SIZE,
};
use crate::probe::{
    after_probe, begun, elapsed_nanos, elapsed_since, initial_state, millis_of, received_size,
    reported, sequence_number, sequence_of, stopped, whole_millis, ActionView, EventView, Phase,
    ProbeAction, ProbeEvent, ProbeRun, ProbeState, Readings, RunView, SocketKind,
};
use crate::types::{MPingDestination, MPingerConfig, MPingerType};
use vstd::prelude::*;

verus! {

/// A worker that probes one destination with ICMP Echo Requests.
pub struct MPingerICMP {
    run: ProbeRun,
    state: ProbeState,
}

impl MPingerICMP {
    /// What the worker was started with.
    pub closed spec fn run(&self) -> RunView {
        self.run@
    }

    /// Where the worker stands.
    pub closed spec fn state(&self) -> ProbeState {
        self.state
    }

    /// The Echo Request that begins a probe, under a fresh identifier.
    pub open spec fn send(run: RunView, state: ProbeState, readings: Readings) -> (
        ProbeState,
        ActionView,
    ) {
        (
            ProbeState {
                identifier: readings.identifier,
                ..begun(state, Phase::Sending, readings)
            },
            ActionView::Send {
                payload: echo_request(
                    readings.identifier,
                    sequence_of(state.ping_nr),
                    Seq::empty(),
                ),
                to: run.dest.sock_addr,
            },
        )
    }

    /// The failure record of a probe, after which the worker is in `phase`.
    pub open spec fn fail(run: RunView, state: ProbeState, phase: Phase) -> (
        ProbeState,
        ActionView,
    ) {
        reported(run, state, phase, MPingerType::ICMPPing, 0, true)
    }

    /// One step of the ICMP prober.
    ///
    /// The worker opens one raw socket; if that fails it stops without a
    /// record. Each probe begins as its Echo Request is sent, with a fresh
    /// identifier and the low 16 bits of the probe number as its sequence
    /// number. A send that fails is reported as an error, and the worker
    /// stops. Otherwise up to `ping_retries` datagrams are received. The
    /// first one that is the reply to the request makes the probe a success,
    /// whose duration is the time since the probe began in milliseconds;
    /// any other datagram uses up one receive. A probe without a reply is
    /// reported as an error: once its receives are used up, or at once where
    /// a receive fails. Either way the probe has one record. After it the
    /// probe is counted, and the worker sleeps or stops.
    pub open spec fn transition(
        run: RunView,
        state: ProbeState,
        event: EventView,
        readings: Readings,
    ) -> (ProbeState, ActionView) {
        match state.phase {
            Phase::Idle => (
                ProbeState { phase: Phase::Opening, ..state },
                ActionView::OpenSocket { kind: SocketKind::Raw, timeout_ms: run.config.timeout },
            ),
            Phase::Opening => match event {
                EventView::Failed => stopped(state),
                _ => Self::send(run, state, readings),
            },
            Phase::Sleeping => Self::send(run, state, readings),
            Phase::Sending => match event {
                EventView::Failed => Self::fail(run, state, Phase::Failing),
                _ => if run.config.ping_retries == 0 {
                    Self::fail(run, state, Phase::Reporting)
                } else {
                    (
                        ProbeState {
                            phase: Phase::Receiving,
                            retries_left: run.config.ping_retries,
                            ..state
                        },
                        ActionView::Receive { capacity: ICMP_SIZE },
                    )
                },
            },
            Phase::Receiving => match event {
                EventView::Received(data) => if is_echo_reply_to(
                    data,
                    received_size(data),
                    state.identifier,
                    sequence_of(state.ping_nr),
                ) {
                    reported(
                        run,
                        state,
                        Phase::Reporting,
                        MPingerType::ICMPPing,
                        whole_millis(elapsed_nanos(state.started_at, readings.at)),
                        false,
                    )
                } else if state.retries_left <= 1 {
                    Self::fail(run, state, Phase::Reporting)
                } else {
                    (
                        ProbeState { retries_left: (state.retries_left - 1) as usize, ..state },
                        ActionView::Receive { capacity: ICMP_SIZE },
                    )
                },
                _ => Self::fail(run, state, Phase::Reporting),
            },
            Phase::Reporting => after_probe(run, state),
            _ => stopped(state),
        }
    }

    /// Creates the worker for `dest`. It has done nothing yet; its first
    /// step takes [`ProbeEvent::Done`].
    pub fn start(config: MPingerConfig, dest: &MPingDestination, count: usize) -> (worker:
        MPingerICMP)
        ensures
            worker.run() == (RunView { config, dest: dest@, count }),
            worker.state() == initial_state(),
    {
        MPingerICMP { run: ProbeRun::new(config, dest, count), state: ProbeState::new() }
    }

    fn send_request(&mut self, readings: Readings) -> (action: ProbeAction)
        ensures
            final(self).run() == old(self).run(),
            (final(self).state(), action@) == Self::send(
                old(self).run(),
                old(self).state(),
                readings,
            ),
    {
        self.state.begin(Phase::Sending, readings);
        self.state.identifier = readings.identifier;
        let payload: Vec<u8> = Vec::new();
        assert(payload@ =~= Seq::<u8>::empty());
        let packet = build_icmp_echo_request(
            readings.identifier,
            sequence_number(self.state.ping_nr),
            payload.as_slice(),
        );
        ProbeAction::Send { payload: packet, to: self.run.dest.sock_addr }
    }

    fn report_failure(&mut self, phase: Phase) -> (action: ProbeAction)
        ensures
            final(self).run() == old(self).run(),
            (final(self).state(), action@) == Self::fail(old(self).run(), old(self).state(), phase),
    {
        self.run.report(&mut self.state, phase, MPingerType::ICMPPing, 0, true)
    }

    /// Takes one step with the given readings.
    pub fn advance(&mut self, event: &ProbeEvent, readings: Readings) -> (action: ProbeAction)
        ensures
            final(self).run() == old(self).run(),
            (final(self).state(), action@) == Self::transition(
                old(self).run(),
                old(self).state(),
                event@,
                readings,
            ),
    {
        match self.state.phase {
            Phase::Idle => {
                self.state.phase = Phase::Opening;
                ProbeAction::OpenSocket {
                    kind: SocketKind::Raw,
                    timeout_ms: self.run.config.timeout,
                }
            },
            Phase::Opening => match event {
                ProbeEvent::Failed => self.state.stop(),
                _ => self.send_request(readings),
            },
            Phase::Sleeping => self.send_request(readings),
            Phase::Sending => match event {
                ProbeEvent::Failed => self.report_failure(Phase::Failing),
                _ => if self.run.config.ping_retries == 0 {
                    self.report_failure(Phase::Reporting)
                } else {
                    self.state.phase = Phase::Receiving;
                    self.state.retries_left = self.run.config.ping_retries;
                    ProbeAction::Receive { capacity: ICMP_SIZE }
                },
            },
            Phase::Receiving => match event {
                ProbeEvent::Received(data) => {
                    if is_valid_icmp_echo_response(
                        data.as_slice(),
                        data.len(),
                        self.state.identifier,
                        sequence_number(self.state.ping_nr),
                    ) {
                        let duration = millis_of(elapsed_since(self.state.started_at, readings.at));
                        self.run.report(
                            &mut self.state,
                            Phase::Reporting,
                            MPingerType::ICMPPing,
                            duration,
                            false,
                        )
                    } else if self.state.retries_left <= 1 {
                        self.report_failure(Phase::Reporting)
                    } else {
                        self.state.retries_left = self.state.retries_left - 1;
                        ProbeAction::Receive { capacity: ICMP_SIZE }
                    }
                },
                _ => self.report_failure(Phase::Reporting),
            },
            Phase::Reporting => self.run.finish_probe(&mut self.state),
            _ => self.state.stop(),
        }
    }

    /// Reads what a step takes from outside: the wall clock and, where an
    /// Echo Request may follow, a fresh identifier.
    pub fn read(&mut self, at: u128) -> (readings: Readings)
        ensures
            final(self).run() == old(self).run(),
            final(self).state() == old(self).state(),
            readings.at == at,
            readings.latency == 0,
    {
        let identifier = match self.state.phase {
            Phase::Opening | Phase::Sleeping => fresh_identifier(),
            _ => 0,
        };
        Readings { at, now: unix_now(), identifier, latency: 0 }
    }

    /// Takes one step: the outcome `event` of the action asked for last,
    /// observed when the monotonic clock stood at `at` nanoseconds, against
    /// the next action.
    pub fn step(&mut self, event: &ProbeEvent, at: u128) -> (action: ProbeAction)
        ensures
            final(self).run() == old(self).run(),
            exists|readings: Readings|
                readings.at == at && #[trigger] Self::transition(
                    old(self).run(),
                    old(self).state(),
                    event@,
                    readings,
                ) == (final(self).state(), action@),
    {
        let readings = self.read(at);
        self.advance(event, readings)
    }
}

} // verus!
