//! One worker per destination: the prober that its probe method calls for.

use crate::mpinger_http_keepalive::MPingerHTTPKeepAlive;
use crate::mpinger_icmp::MPingerICMP;
use crate::mpinger_rnd::{MPingerRnd, MAX_RANDOM_LATENCY};
use crate::mpinger_tcp_connect::MPingerTCPConnect;
use crate::mpinger_udp::MPingerUDP;
use crate::probe::{
    initial_state, ActionView, EventView, ProbeAction, ProbeEvent, ProbeState, Readings, RunView,
};
use crate::types::{MPingDestination, MPingerConfig, MPingerType};
use vstd::prelude::*;

verus! {

/// The prober of one destination.
pub enum MPingerWorker {
    ICMPPing(MPingerICMP),
    TCPConnect(MPingerTCPConnect),
    HTTPKeepAlive(MPingerHTTPKeepAlive),
    UDPPing(MPingerUDP),
    Rnd(MPingerRnd),
}

/// One step of the prober for probe method `kind`.
pub open spec fn worker_transition(
    kind: MPingerType,
    run: RunView,
    state: ProbeState,
    event: EventView,
    readings: Readings,
) -> (ProbeState, ActionView) {
    match kind {
        MPingerType::ICMPPing => MPingerICMP::transition(run, state, event, readings),
        MPingerType::TCPConnect => MPingerTCPConnect::transition(run, state, event, readings),
        MPingerType::HTTPKeepAlive => MPingerHTTPKeepAlive::transition(
            run,
            state,
            event,
            readings,
        ),
        MPingerType::UDPPing => MPingerUDP::transition(run, state, event, readings),
        MPingerType::Rnd => MPingerRnd::transition(run, state, event, readings),
    }
}

impl MPingerWorker {
    /// The probe method of this worker.
    pub open spec fn kind(&self) -> MPingerType {
        match self {
            MPingerWorker::ICMPPing(_) => MPingerType::ICMPPing,
            MPingerWorker::TCPConnect(_) => MPingerType::TCPConnect,
            MPingerWorker::HTTPKeepAlive(_) => MPingerType::HTTPKeepAlive,
            MPingerWorker::UDPPing(_) => MPingerType::UDPPing,
            MPingerWorker::Rnd(_) => MPingerType::Rnd,
        }
    }

    /// What the worker was started with.
    pub open spec fn run(&self) -> RunView {
        match self {
            MPingerWorker::ICMPPing(prober) => prober.run(),
            MPingerWorker::TCPConnect(prober) => prober.run(),
            MPingerWorker::HTTPKeepAlive(prober) => prober.run(),
            MPingerWorker::UDPPing(prober) => prober.run(),
            MPingerWorker::Rnd(prober) => prober.run(),
        }
    }

    /// Where the worker stands.
    pub open spec fn state(&self) -> ProbeState {
        match self {
            MPingerWorker::ICMPPing(prober) => prober.state(),
            MPingerWorker::TCPConnect(prober) => prober.state(),
            MPingerWorker::HTTPKeepAlive(prober) => prober.state(),
            MPingerWorker::UDPPing(prober) => prober.state(),
            MPingerWorker::Rnd(prober) => prober.state(),
        }
    }

    /// Whether this is the worker for `dest` as the engine starts it: of the
    /// destination's probe method, bound to the destination, the shared
    /// configuration and the count, with nothing done yet.
    pub open spec fn is_fresh_for(
        &self,
        config: MPingerConfig,
        dest: crate::types::DestinationView,
        count: usize,
    ) -> bool {
        &&& self.kind() == dest.ping_type
        &&& self.run() == (RunView { config, dest, count })
        &&& self.state() == initial_state()
    }

    /// Creates the worker that the probe method of `dest` calls for.
    pub fn launch(config: MPingerConfig, dest: &MPingDestination, count: usize) -> (worker:
        MPingerWorker)
        ensures
            worker.is_fresh_for(config, dest@, count),
    {
        match dest.ping_type {
            MPingerType::ICMPPing => MPingerWorker::ICMPPing(
                MPingerICMP::start(config, dest, count),
            ),
            MPingerType::TCPConnect => MPingerWorker::TCPConnect(
                MPingerTCPConnect::start(config, dest, count),
            ),
            MPingerType::HTTPKeepAlive => MPingerWorker::HTTPKeepAlive(
                MPingerHTTPKeepAlive::start(config, dest, count),
            ),
            MPingerType::UDPPing => MPingerWorker::UDPPing(MPingerUDP::start(config, dest, count)),
            MPingerType::Rnd => MPingerWorker::Rnd(MPingerRnd::start(config, dest, count)),
        }
    }

    /// Takes one step with the given readings.
    pub fn advance(&mut self, event: &ProbeEvent, readings: Readings) -> (action: ProbeAction)
        ensures
            final(self).kind() == old(self).kind(),
            final(self).run() == old(self).run(),
            (final(self).state(), action@) == worker_transition(
                old(self).kind(),
                old(self).run(),
                old(self).state(),
                event@,
                readings,
            ),
    {
        match self {
            MPingerWorker::ICMPPing(prober) => prober.advance(event, readings),
            MPingerWorker::TCPConnect(prober) => prober.advance(event, readings),
            MPingerWorker::HTTPKeepAlive(prober) => prober.advance(event, readings),
            MPingerWorker::UDPPing(prober) => prober.advance(event, readings),
            MPingerWorker::Rnd(prober) => prober.advance(event, readings),
        }
    }

    /// Takes one step: the outcome `event` of the action asked for last,
    /// observed when the monotonic clock stood at `at` nanoseconds, against
    /// the next action. The wall clock and the random numbers that the step
    /// uses are read here; a random latency is at most
    /// [`MAX_RANDOM_LATENCY`].
    pub fn step(&mut self, event: &ProbeEvent, at: u128) -> (action: ProbeAction)
        ensures
            final(self).kind() == old(self).kind(),
            final(self).run() == old(self).run(),
            exists|readings: Readings|
                readings.at == at && readings.latency <= MAX_RANDOM_LATENCY
                    && #[trigger] worker_transition(
                    old(self).kind(),
                    old(self).run(),
                    old(self).state(),
                    event@,
                    readings,
                ) == (final(self).state(), action@),
    {
        let readings = match self {
            MPingerWorker::ICMPPing(prober) => prober.read(at),
            MPingerWorker::TCPConnect(prober) => prober.read(at),
            MPingerWorker::HTTPKeepAlive(prober) => prober.read(at),
            MPingerWorker::UDPPing(prober) => prober.read(at),
            MPingerWorker::Rnd(prober) => prober.read(at),
        };
        self.advance(event, readings)
    }
}

} // verus!
