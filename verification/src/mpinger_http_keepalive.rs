//! The HTTP keep-alive prober: `GET /` over one connection that stays open,
//! and the time until the first bytes of the response.

use crate::ambient::unix_now;
use crate::probe::{
    after_probe, begun, elapsed_nanos, elapsed_since, initial_state, millis_of, reported,
    stopped, whole_millis, ActionView, EventView, Phase, ProbeAction, ProbeEvent, ProbeRun,
    ProbeState, Readings, RunView,
};
use crate::types::{MPingDestination, MPingerConfig, MPingerType};
use vstd::prelude::*;

verus! {

/// Size in bytes of the buffer the response is read into. A read that fills
/// it is taken to mean that more of the response waits.
pub const HTTP_BUFFER_SIZE: usize = 4096;

/// The text of the request for `host`.
pub open spec fn http_request_text(host: Seq<char>) -> Seq<char> {
    "GET / HTTP/1.1\r\nHost: "@ + host + "\r\n\r\n"@
}

/// The bytes of the request for `host`: its text in UTF-8.
pub open spec fn http_request(host: Seq<char>) -> Seq<u8> {
    vstd::utf8::encode_utf8(http_request_text(host))
}

/// Writes the request for `host`.
pub fn build_http_request(host: &str) -> (request: Vec<u8>)
    ensures
        request@ == http_request(host@),
{
    let mut text = String::from_str("GET / HTTP/1.1\r\nHost: ");
    text.append(host);
    text.append("\r\n\r\n");
    text.as_str().as_bytes_vec()
}

/// A worker that probes one destination over HTTP.
pub struct MPingerHTTPKeepAlive {
    run: ProbeRun,
    state: ProbeState,
}

impl MPingerHTTPKeepAlive {
    /// What the worker was started with.
    pub closed spec fn run(&self) -> RunView {
        self.run@
    }

    /// Where the worker stands.
    pub closed spec fn state(&self) -> ProbeState {
        self.state
    }

    /// The request that begins a probe.
    pub open spec fn send(run: RunView, state: ProbeState, readings: Readings) -> (
        ProbeState,
        ActionView,
    ) {
        (
            begun(state, Phase::Sending, readings),
            ActionView::Send { payload: http_request(run.dest.host), to: run.dest.sock_addr },
        )
    }

    /// The failure record that ends the worker.
    pub open spec fn fail(run: RunView, state: ProbeState) -> (ProbeState, ActionView) {
        reported(run, state, Phase::Failing, MPingerType::HTTPKeepAlive, 0, true)
    }

    /// One step of the HTTP keep-alive prober.
    ///
    /// The worker first opens its one connection; if that fails it reports
    /// one error and stops. Each probe begins as the request is written. A
    /// write or a first read that fails is reported as an error, and the
    /// worker stops. The duration is the time from the beginning of the probe
    /// to the end of the first read, in milliseconds. While a read fills the
    /// buffer another read follows, whose failure changes nothing. Then the
    /// success is reported, the probe is counted, and the worker sleeps or
    /// stops.
    pub open spec fn transition(
        run: RunView,
        state: ProbeState,
        event: EventView,
        readings: Readings,
    ) -> (ProbeState, ActionView) {
        match state.phase {
            Phase::Idle => (
                begun(state, Phase::Connecting, readings),
                ActionView::OpenStream { to: run.dest.sock_addr, timeout_ms: run.config.timeout },
            ),
            Phase::Connecting => match event {
                EventView::Failed => Self::fail(run, state),
                _ => Self::send(run, state, readings),
            },
            Phase::Sleeping => Self::send(run, state, readings),
            Phase::Sending => match event {
                EventView::Failed => Self::fail(run, state),
                _ => (
                    ProbeState { phase: Phase::Receiving, ..state },
                    ActionView::Receive { capacity: HTTP_BUFFER_SIZE },
                ),
            },
            Phase::Receiving => match event {
                EventView::Received(data) => {
                    let duration = whole_millis(elapsed_nanos(state.started_at, readings.at));
                    if data.len() >= HTTP_BUFFER_SIZE {
                        (
                            ProbeState { phase: Phase::Draining, duration, ..state },
                            ActionView::Receive { capacity: HTTP_BUFFER_SIZE },
                        )
                    } else {
                        reported(
                            run,
                            state,
                            Phase::Reporting,
                            MPingerType::HTTPKeepAlive,
                            duration,
                            false,
                        )
                    }
                },
                _ => Self::fail(run, state),
            },
            Phase::Draining => match event {
                EventView::Received(data) if data.len() >= HTTP_BUFFER_SIZE => (
                    state,
                    ActionView::Receive { capacity: HTTP_BUFFER_SIZE },
                ),
                _ => reported(
                    run,
                    state,
                    Phase::Reporting,
                    MPingerType::HTTPKeepAlive,
                    state.duration,
                    false,
                ),
            },
            Phase::Reporting => after_probe(run, state),
            _ => stopped(state),
        }
    }

    /// Creates the worker for `dest`. It has done nothing yet; its first
    /// step takes [`ProbeEvent::Done`].
    pub fn start(config: MPingerConfig, dest: &MPingDestination, count: usize) -> (worker:
        MPingerHTTPKeepAlive)
        ensures
            worker.run() == (RunView { config, dest: dest@, count }),
            worker.state() == initial_state(),
    {
        MPingerHTTPKeepAlive { run: ProbeRun::new(config, dest, count), state: ProbeState::new() }
    }

    fn send_request(&mut self, readings: Readings) -> (action: ProbeAction)
        ensures
            final(self).run() == old(self).run(),
            (final(self).state(), action@) == Self::send(
                old(self).run(),
                old(self).state(),
                readings,
            ),
    {
        self.state.begin(Phase::Sending, readings);
        ProbeAction::Send {
            payload: build_http_request(self.run.dest.host.as_str()),
            to: self.run.dest.sock_addr,
        }
    }

    fn report(&mut self, phase: Phase, duration: u64, is_error: bool) -> (action: ProbeAction)
        ensures
            final(self).run() == old(self).run(),
            (final(self).state(), action@) == reported(
                old(self).run(),
                old(self).state(),
                phase,
                MPingerType::HTTPKeepAlive,
                duration,
                is_error,
            ),
    {
        self.run.report(&mut self.state, phase, MPingerType::HTTPKeepAlive, duration, is_error)
    }

    /// Takes one step with the given readings.
    pub fn advance(&mut self, event: &ProbeEvent, readings: Readings) -> (action: ProbeAction)
        ensures
            final(self).run() == old(self).run(),
            (final(self).state(), action@) == Self::transition(
                old(self).run(),
                old(self).state(),
                event@,
                readings,
            ),
    {
        match self.state.phase {
            Phase::Idle => {
                self.state.begin(Phase::Connecting, readings);
                ProbeAction::OpenStream {
                    to: self.run.dest.sock_addr,
                    timeout_ms: self.run.config.timeout,
                }
            },
            Phase::Connecting => match event {
                ProbeEvent::Failed => self.report(Phase::Failing, 0, true),
                _ => self.send_request(readings),
            },
            Phase::Sleeping => self.send_request(readings),
            Phase::Sending => match event {
                ProbeEvent::Failed => self.report(Phase::Failing, 0, true),
                _ => {
                    self.state.phase = Phase::Receiving;
                    ProbeAction::Receive { capacity: HTTP_BUFFER_SIZE }
                },
            },
            Phase::Receiving => match event {
                ProbeEvent::Received(data) => {
                    let duration = millis_of(elapsed_since(self.state.started_at, readings.at));
                    if data.len() >= HTTP_BUFFER_SIZE {
                        self.state.phase = Phase::Draining;
                        self.state.duration = duration;
                        ProbeAction::Receive { capacity: HTTP_BUFFER_SIZE }
                    } else {
                        self.report(Phase::Reporting, duration, false)
                    }
                },
                _ => self.report(Phase::Failing, 0, true),
            },
            Phase::Draining => {
                let more = match event {
                    ProbeEvent::Received(data) => data.len() >= HTTP_BUFFER_SIZE,
                    _ => false,
                };
                if more {
                    ProbeAction::Receive { capacity: HTTP_BUFFER_SIZE }
                } else {
                    let duration = self.state.duration;
                    self.report(Phase::Reporting, duration, false)
                }
            },
            Phase::Reporting => self.run.finish_probe(&mut self.state),
            _ => self.state.stop(),
        }
    }

    /// Reads what a step takes from outside: the wall clock.
    pub fn read(&mut self, at: u128) -> (readings: Readings)
        ensures
            final(self).run() == old(self).run(),
            final(self).state() == old(self).state(),
            readings.at == at,
            readings.latency == 0,
    {
        Readings { at, now: unix_now(), identifier: 0, latency: 0 }
    }

    /// Takes one step: the outcome `event` of the action asked for last,
    /// observed when the monotonic clock stood at `at` nanoseconds, against
    /// the next action.
    pub fn step(&mut self, event: &ProbeEvent, at: u128) -> (action: ProbeAction)
        ensures
            final(self).run() == old(self).run(),
            exists|readings: Readings|
                readings.at == at && #[trigger] Self::transition(
                    old(self).run(),
                    old(self).state(),
                    event@,
                    readings,
                ) == (final(self).state(), action@),
    {
        let readings = self.read(at);
        self.advance(event, readings)
    }
}

} // verus!
