//! What a prober and its driver say to each other.
//!
//! A prober performs no input or output. It is a state machine: each step
//! takes the outcome of the action it asked for last and answers with the
//! next action. The driver opens sockets, sends, receives, sleeps and hands
//! records to the consumer; the prober decides what is done and what is
//! reported.

use crate::types::{
    DestinationView, MPingDestination, MPingerConfig, MPingerMessage, MPingerType, SockAddrV4,
};
use vstd::prelude::*;

verus! {

/// The kind of IPv4 socket a prober asks for.
#[derive(Debug, PartialEq, Eq, Copy, Clone, Structural)]
pub enum SocketKind {
    /// A raw socket of protocol ICMP.
    Raw,
    /// A TCP socket.
    Stream,
    /// A UDP socket.
    Datagram,
}

/// What the driver is to do next.
#[derive(Debug, PartialEq, Eq, Clone)]
pub enum ProbeAction {
    /// Create a fresh socket of this kind, with `timeout_ms` as its read and
    /// write timeout. A socket opened before is discarded.
    OpenSocket { kind: SocketKind, timeout_ms: u64 },
    /// Open a TCP connection to `to` within `timeout_ms`, then give it
    /// `timeout_ms` as its read and write timeout.
    OpenStream { to: SockAddrV4, timeout_ms: u64 },
    /// Connect the open socket to `to` within `timeout_ms`.
    Connect { to: SockAddrV4, timeout_ms: u64 },
    /// Send `payload`: to `to` on a socket, as a whole on a connection.
    Send { payload: Vec<u8>, to: SockAddrV4 },
    /// Receive once into a buffer of `capacity` bytes.
    Receive { capacity: usize },
    /// Shut the open socket down in both directions and discard it.
    Shutdown,
    /// Hand this record to the consumer. That the consumer is gone is no
    /// failure.
    Emit(MPingerMessage),
    /// Wait for `ms` milliseconds.
    Sleep { ms: u64 },
    /// The worker is finished; it asks for nothing more.
    Stop,
}

/// A [`ProbeAction`] with its payload as a sequence of bytes.
pub enum ActionView {
    OpenSocket { kind: SocketKind, timeout_ms: u64 },
    OpenStream { to: SockAddrV4, timeout_ms: u64 },
    Connect { to: SockAddrV4, timeout_ms: u64 },
    Send { payload: Seq<u8>, to: SockAddrV4 },
    Receive { capacity: usize },
    Shutdown,
    Emit(MPingerMessage),
    Sleep { ms: u64 },
    Stop,
}

impl View for ProbeAction {
    type V = ActionView;

    open spec fn view(&self) -> ActionView {
        match self {
            ProbeAction::OpenSocket { kind, timeout_ms } => ActionView::OpenSocket {
                kind: *kind,
                timeout_ms: *timeout_ms,
            },
            ProbeAction::OpenStream { to, timeout_ms } => ActionView::OpenStream {
                to: *to,
                timeout_ms: *timeout_ms,
            },
            ProbeAction::Connect { to, timeout_ms } => ActionView::Connect {
                to: *to,
                timeout_ms: *timeout_ms,
            },
            ProbeAction::Send { payload, to } => ActionView::Send { payload: payload@, to: *to },
            ProbeAction::Receive { capacity } => ActionView::Receive { capacity: *capacity },
            ProbeAction::Shutdown => ActionView::Shutdown,
            ProbeAction::Emit(record) => ActionView::Emit(*record),
            ProbeAction::Sleep { ms } => ActionView::Sleep { ms: *ms },
            ProbeAction::Stop => ActionView::Stop,
        }
    }
}

/// How the action that a prober asked for last went.
#[derive(Debug, PartialEq, Eq, Clone)]
pub enum ProbeEvent {
    /// It was carried out. Before the first action: nothing has happened yet.
    Done,
    /// It failed or timed out.
    Failed,
    /// A receive returned these bytes.
    Received(Vec<u8>),
}

/// A [`ProbeEvent`] with its bytes as a sequence.
pub enum EventView {
    Done,
    Failed,
    Received(Seq<u8>),
}

impl View for ProbeEvent {
    type V = EventView;

    open spec fn view(&self) -> EventView {
        match self {
            ProbeEvent::Done => EventView::Done,
            ProbeEvent::Failed => EventView::Failed,
            ProbeEvent::Received(data) => EventView::Received(data@),
        }
    }
}

/// What a step reads from outside the prober.
#[derive(Debug, PartialEq, Eq, Copy, Clone, Structural)]
pub struct Readings {
    /// A monotonic clock at the moment the event was observed, in
    /// nanoseconds.
    pub at: u128,
    /// The wall clock, in seconds since the Unix epoch.
    pub now: i64,
    /// A random identifier for an Echo Request.
    pub identifier: u16,
    /// A random latency for a probe that sends nothing.
    pub latency: u64,
}

/// Where a prober stands: what it asked for last.
#[derive(Debug, PartialEq, Eq, Copy, Clone, Structural)]
pub enum Phase {
    /// Nothing yet.
    Idle,
    /// A socket.
    Opening,
    /// A connection.
    Connecting,
    /// A send.
    Sending,
    /// A receive whose result decides the probe.
    Receiving,
    /// A receive that only empties the connection.
    Draining,
    /// The record that ends a probe.
    Reporting,
    /// A failure record that ends the worker.
    Failing,
    /// A shutdown.
    Closing,
    /// A pause between two probes.
    Sleeping,
    /// Nothing more: the worker has stopped.
    Done,
}

/// The part of a prober that changes from step to step.
#[derive(Debug, PartialEq, Eq, Copy, Clone, Structural)]
pub struct ProbeState {
    pub phase: Phase,
    /// The number of the probe in progress, or of the next one.
    pub ping_nr: usize,
    /// Receives left to the probe in progress.
    pub retries_left: usize,
    /// The identifier of the Echo Request in flight.
    pub identifier: u16,
    /// The monotonic clock when the probe in progress began.
    pub started_at: u128,
    /// The wall clock when the probe in progress began.
    pub started_unix: i64,
    /// The round-trip time of the probe in progress, once it is measured.
    pub duration: u64,
}

/// What a prober is given when it starts and keeps to its end.
pub struct ProbeRun {
    pub config: MPingerConfig,
    pub dest: MPingDestination,
    /// The number of probes to make; zero for no limit.
    pub count: usize,
}

/// A [`ProbeRun`] with its destination as a view.
pub struct RunView {
    pub config: MPingerConfig,
    pub dest: DestinationView,
    pub count: usize,
}

impl View for ProbeRun {
    type V = RunView;

    open spec fn view(&self) -> RunView {
        RunView { config: self.config, dest: self.dest@, count: self.count }
    }
}

/// The state of a prober that has done nothing yet.
pub open spec fn initial_state() -> ProbeState {
    ProbeState {
        phase: Phase::Idle,
        ping_nr: 0,
        retries_left: 0,
        identifier: 0,
        started_at: 0,
        started_unix: 0,
        duration: 0,
    }
}

/// The time from `started_at` to `at` in nanoseconds; zero where the clock
/// went backwards.
pub open spec fn elapsed_nanos(started_at: u128, at: u128) -> u128 {
    if at >= started_at {
        (at - started_at) as u128
    } else {
        0
    }
}

/// Whole milliseconds in `nanos`, reduced to 32 bits.
pub open spec fn whole_millis(nanos: u128) -> u64 {
    ((nanos / 1_000_000) % 0x1_0000_0000) as u64
}

/// Whole microseconds in `nanos`, reduced to 64 bits.
pub open spec fn whole_micros(nanos: u128) -> u64 {
    ((nanos / 1_000) % 0x1_0000_0000_0000_0000) as u64
}

/// The sequence number of the Echo Request of probe `ping_nr`: its low 16
/// bits.
pub open spec fn sequence_of(ping_nr: usize) -> u16 {
    (ping_nr % 0x1_0000) as u16
}

/// The number of bytes in a received datagram.
pub open spec fn received_size(data: Seq<u8>) -> usize {
    data.len() as usize
}

/// The record of the probe in progress.
pub open spec fn record_of(
    run: RunView,
    state: ProbeState,
    runner_type: MPingerType,
    duration: u64,
    is_error: bool,
) -> MPingerMessage {
    MPingerMessage {
        destination_id: run.dest.id,
        ping_nr: state.ping_nr,
        runner_type,
        start_timestamp: state.started_unix,
        duration,
        is_error,
    }
}

/// The record that a prober hands out, and the state in which it awaits the
/// outcome.
pub open spec fn reported(
    run: RunView,
    state: ProbeState,
    phase: Phase,
    runner_type: MPingerType,
    duration: u64,
    is_error: bool,
) -> (ProbeState, ActionView) {
    (
        ProbeState { phase, duration, ..state },
        ActionView::Emit(record_of(run, state, runner_type, duration, is_error)),
    )
}

/// The state as a probe begins: both clocks are noted.
pub open spec fn begun(state: ProbeState, phase: Phase, readings: Readings) -> ProbeState {
    ProbeState { phase, started_at: readings.at, started_unix: readings.now, duration: 0, ..state }
}

/// What follows a finished probe. The probe is counted. With a limit that is
/// now reached the worker stops; otherwise it sleeps for `ping_interval`. A
/// worker whose probe numbers are used up stops as well.
pub open spec fn after_probe(run: RunView, state: ProbeState) -> (ProbeState, ActionView) {
    if state.ping_nr == usize::MAX {
        (ProbeState { phase: Phase::Done, ..state }, ActionView::Stop)
    } else {
        let counted = (state.ping_nr + 1) as usize;
        if run.count > 0 && counted >= run.count {
            (ProbeState { phase: Phase::Done, ping_nr: counted, ..state }, ActionView::Stop)
        } else {
            (
                ProbeState { phase: Phase::Sleeping, ping_nr: counted, ..state },
                ActionView::Sleep { ms: run.config.ping_interval },
            )
        }
    }
}

/// The end of a worker.
pub open spec fn stopped(state: ProbeState) -> (ProbeState, ActionView) {
    (ProbeState { phase: Phase::Done, ..state }, ActionView::Stop)
}

impl ProbeState {
    /// The state of a prober that has done nothing yet.
    pub fn new() -> (state: ProbeState)
        ensures
            state == initial_state(),
    {
        ProbeState {
            phase: Phase::Idle,
            ping_nr: 0,
            retries_left: 0,
            identifier: 0,
            started_at: 0,
            started_unix: 0,
            duration: 0,
        }
    }

    /// Notes both clocks as a probe begins.
    pub fn begin(&mut self, phase: Phase, readings: Readings)
        ensures
            *final(self) == begun(*old(self), phase, readings),
    {
        self.phase = phase;
        self.started_at = readings.at;
        self.started_unix = readings.now;
        self.duration = 0;
    }

    /// Stops the worker.
    pub fn stop(&mut self) -> (action: ProbeAction)
        ensures
            (*final(self), action@) == stopped(*old(self)),
    {
        self.phase = Phase::Done;
        ProbeAction::Stop
    }
}

impl ProbeRun {
    /// Binds a prober to its destination.
    pub fn new(config: MPingerConfig, dest: &MPingDestination, count: usize) -> (run: ProbeRun)
        ensures
            run@ == (RunView { config, dest: dest@, count }),
    {
        ProbeRun { config, dest: dest.snapshot(), count }
    }

    /// Builds the record of the probe in progress.
    pub fn record(
        &self,
        state: &ProbeState,
        runner_type: MPingerType,
        duration: u64,
        is_error: bool,
    ) -> (record: MPingerMessage)
        ensures
            record == record_of(self@, *state, runner_type, duration, is_error),
    {
        MPingerMessage {
            destination_id: self.dest.id,
            ping_nr: state.ping_nr,
            runner_type,
            start_timestamp: state.started_unix,
            duration,
            is_error,
        }
    }

    /// Hands out the record of the probe in progress and moves to `phase`.
    pub fn report(
        &self,
        state: &mut ProbeState,
        phase: Phase,
        runner_type: MPingerType,
        duration: u64,
        is_error: bool,
    ) -> (action: ProbeAction)
        ensures
            (*final(state), action@) == reported(
                self@,
                *old(state),
                phase,
                runner_type,
                duration,
                is_error,
            ),
    {
        let record = self.record(state, runner_type, duration, is_error);
        state.phase = phase;
        state.duration = duration;
        ProbeAction::Emit(record)
    }

    /// Counts the finished probe and decides between sleeping and stopping.
    pub fn finish_probe(&self, state: &mut ProbeState) -> (action: ProbeAction)
        ensures
            (*final(state), action@) == after_probe(self@, *old(state)),
    {
        if state.ping_nr == usize::MAX {
            state.phase = Phase::Done;
            return ProbeAction::Stop;
        }
        state.ping_nr = state.ping_nr + 1;
        if self.count > 0 && state.ping_nr >= self.count {
            state.phase = Phase::Done;
            ProbeAction::Stop
        } else {
            state.phase = Phase::Sleeping;
            ProbeAction::Sleep { ms: self.config.ping_interval }
        }
    }
}

/// The sequence number of the Echo Request of probe `ping_nr`.
pub fn sequence_number(ping_nr: usize) -> (sequence: u16)
    ensures
        sequence == sequence_of(ping_nr),
{
    (ping_nr % 0x1_0000) as u16
}

/// The nanoseconds from `started_at` to `at`.
pub fn elapsed_since(started_at: u128, at: u128) -> (nanos: u128)
    ensures
        nanos == elapsed_nanos(started_at, at),
{
    if at >= started_at {
        at - started_at
    } else {
        0
    }
}

/// A time span in whole milliseconds, reduced to 32 bits.
pub fn millis_of(nanos: u128) -> (millis: u64)
    ensures
        millis == whole_millis(nanos),
{
    ((nanos / 1_000_000) % 0x1_0000_0000) as u64
}

/// A time span in whole microseconds, reduced to 64 bits.
pub fn micros_of(nanos: u128) -> (micros: u64)
    ensures
        micros == whole_micros(nanos),
{
    ((nanos / 1_000) % 0x1_0000_0000_0000_0000) as u64
}

} // verus!
