//! Runs of a worker: what holds of the records it hands out, whatever the
//! network does.

use crate::mpinger_http_keepalive::HTTP_BUFFER_SIZE;
use crate::probe::{
    initial_state, ActionView, EventView, Phase, ProbeState, Readings, RunView,
};
use crate::types::{MPingerMessage, MPingerType};
use crate::worker::worker_transition;
use vstd::prelude::*;

verus! {

/// What one step is given: the outcome of the action asked for last, and
/// what is read from outside.
pub struct StepInput {
    pub event: EventView,
    pub readings: Readings,
}

/// The state of a worker after the steps of `inputs`, taken in order.
pub open spec fn state_after(
    kind: MPingerType,
    run: RunView,
    state: ProbeState,
    inputs: Seq<StepInput>,
) -> ProbeState
    decreases inputs.len(),
{
    if inputs.len() == 0 {
        state
    } else {
        worker_transition(
            kind,
            run,
            state_after(kind, run, state, inputs.drop_last()),
            inputs.last().event,
            inputs.last().readings,
        ).0
    }
}

/// The records that a worker hands out during the steps of `inputs`, in
/// order.
pub open spec fn records_of(
    kind: MPingerType,
    run: RunView,
    state: ProbeState,
    inputs: Seq<StepInput>,
) -> Seq<MPingerMessage>
    decreases inputs.len(),
{
    if inputs.len() == 0 {
        Seq::empty()
    } else {
        let earlier = records_of(kind, run, state, inputs.drop_last());
        match worker_transition(
            kind,
            run,
            state_after(kind, run, state, inputs.drop_last()),
            inputs.last().event,
            inputs.last().readings,
        ).1 {
            ActionView::Emit(record) => earlier.push(record),
            _ => earlier,
        }
    }
}

/// Whether a worker has made all the probes it was started for.
pub open spec fn is_complete(run: RunView, state: ProbeState) -> bool {
    state.phase == Phase::Done && run.count > 0 && state.ping_nr == run.count
}

/// How the number of records handed out so far goes with the state.
spec fn tallies(run: RunView, state: ProbeState, reported: nat) -> bool {
    &&& run.count > 0 && state.phase != Phase::Done ==> state.ping_nr < run.count
    &&& match state.phase {
        Phase::Reporting | Phase::Closing | Phase::Failing => reported == state.ping_nr + 1,
        Phase::Done => is_complete(run, state) ==> reported == run.count,
        _ => reported == state.ping_nr,
    }
}

/// One step keeps the tally, and a record that it hands out carries the
/// number of records handed out before it.
proof fn lemma_step_tallies(
    kind: MPingerType,
    run: RunView,
    state: ProbeState,
    input: StepInput,
    reported: nat,
)
    requires
        tallies(run, state, reported),
    ensures
        ({
            let (next, action) = worker_transition(kind, run, state, input.event, input.readings);
            match action {
                ActionView::Emit(record) => {
                    &&& record.ping_nr == reported
                    &&& record.destination_id == run.dest.id
                    &&& record.runner_type == kind
                    &&& tallies(run, next, reported + 1)
                },
                _ => tallies(run, next, reported),
            }
        }),
{
}

/// The tally holds after every run.
proof fn lemma_run_tallies(kind: MPingerType, run: RunView, inputs: Seq<StepInput>)
    ensures
        tallies(
            run,
            state_after(kind, run, initial_state(), inputs),
            records_of(kind, run, initial_state(), inputs).len(),
        ),
        forall|k: int|
            0 <= k < records_of(kind, run, initial_state(), inputs).len() ==> {
                let record = #[trigger] records_of(kind, run, initial_state(), inputs)[k];
                &&& record.ping_nr == k
                &&& record.destination_id == run.dest.id
                &&& record.runner_type == kind
            },
    decreases inputs.len(),
{
    if inputs.len() > 0 {
        let earlier = inputs.drop_last();
        lemma_run_tallies(kind, run, earlier);
        lemma_step_tallies(
            kind,
            run,
            state_after(kind, run, initial_state(), earlier),
            inputs.last(),
            records_of(kind, run, initial_state(), earlier).len(),
        );
    }
}

/// The records of one destination are numbered 0, 1, 2, ... in the order in
/// which they are handed out, without gap or repetition, and each names its
/// destination and its probe method. This holds of every prober and of
/// every run, whatever the network does and however the run ends: every
/// probe has exactly one record.
pub proof fn lemma_records_are_numbered(kind: MPingerType, run: RunView, inputs: Seq<StepInput>)
    ensures
        forall|k: int|
            0 <= k < records_of(kind, run, initial_state(), inputs).len() ==> {
                let record = #[trigger] records_of(kind, run, initial_state(), inputs)[k];
                &&& record.ping_nr == k
                &&& record.destination_id == run.dest.id
                &&& record.runner_type == kind
            },
{
    lemma_run_tallies(kind, run, inputs);
}

/// A worker that was started for `count` probes, with `count` above zero,
/// and has made them all has handed out exactly `count` records.
pub proof fn lemma_complete_run_reports_count(
    kind: MPingerType,
    run: RunView,
    inputs: Seq<StepInput>,
)
    requires
        is_complete(run, state_after(kind, run, initial_state(), inputs)),
    ensures
        records_of(kind, run, initial_state(), inputs).len() == run.count,
{
    lemma_run_tallies(kind, run, inputs);
}

/// Whether the network lets a step go on, that is, whether `event` neither
/// holds the worker up nor ends it before its probes are made. A failure
/// that only makes a probe fail is let through: the probe still ends with
/// its record. What is not let through:
///
/// - a socket that cannot be opened, which the TCP-connect and UDP probers
///   ask for again and which ends the ICMP prober;
/// - a send that fails, for the ICMP prober, which it ends;
/// - a connection that cannot be opened, a write that fails, and a first
///   read that fails, for the HTTP prober, each of which ends it;
/// - a read that fills the buffer again while a connection is emptied.
pub open spec fn permits(kind: MPingerType, state: ProbeState, event: EventView) -> bool {
    match (kind, state.phase) {
        (MPingerType::ICMPPing, Phase::Opening) => !(event is Failed),
        (MPingerType::ICMPPing, Phase::Sending) => !(event is Failed),
        (MPingerType::TCPConnect, Phase::Opening) => !(event is Failed),
        (MPingerType::UDPPing, Phase::Opening) => !(event is Failed),
        (MPingerType::HTTPKeepAlive, Phase::Connecting) => !(event is Failed),
        (MPingerType::HTTPKeepAlive, Phase::Sending) => !(event is Failed),
        (MPingerType::HTTPKeepAlive, Phase::Receiving) => event is Received,
        (MPingerType::HTTPKeepAlive, Phase::Draining) => match event {
            EventView::Received(data) => data.len() < HTTP_BUFFER_SIZE,
            _ => true,
        },
        _ => true,
    }
}

/// Whether the network lets every step of a run go on.
pub open spec fn permits_all(
    kind: MPingerType,
    run: RunView,
    state: ProbeState,
    inputs: Seq<StepInput>,
) -> bool {
    forall|k: int|
        0 <= k < inputs.len() ==> permits(
            kind,
            #[trigger] state_after(kind, run, state, inputs.take(k)),
            inputs[k].event,
        )
}

/// The most steps that one probe takes, from the pause before it to the
/// record that ends it.
pub open spec fn steps_per_probe(kind: MPingerType, run: RunView) -> nat {
    match kind {
        MPingerType::ICMPPing => (run.config.ping_retries + 3) as nat,
        MPingerType::Rnd => 2,
        _ => 5,
    }
}

/// The most steps that the probe in progress still takes.
pub open spec fn steps_of_probe_left(kind: MPingerType, run: RunView, state: ProbeState) -> nat {
    match kind {
        MPingerType::ICMPPing => match state.phase {
            Phase::Idle => (run.config.ping_retries + 4) as nat,
            Phase::Opening | Phase::Sleeping => (run.config.ping_retries + 3) as nat,
            Phase::Sending => (run.config.ping_retries + 2) as nat,
            Phase::Receiving => (state.retries_left + 1) as nat,
            _ => 1,
        },
        MPingerType::TCPConnect => match state.phase {
            Phase::Idle | Phase::Sleeping => 5,
            Phase::Opening => 4,
            Phase::Connecting => 3,
            Phase::Reporting => 2,
            _ => 1,
        },
        MPingerType::HTTPKeepAlive => match state.phase {
            Phase::Idle => 6,
            Phase::Connecting | Phase::Sleeping => 5,
            Phase::Sending => 4,
            Phase::Receiving => 3,
            Phase::Draining => 2,
            _ => 1,
        },
        MPingerType::UDPPing => match state.phase {
            Phase::Idle | Phase::Sleeping => 5,
            Phase::Opening => 4,
            Phase::Sending => 3,
            Phase::Receiving => 2,
            _ => 1,
        },
        MPingerType::Rnd => match state.phase {
            Phase::Idle | Phase::Sleeping => 2,
            _ => 1,
        },
    }
}

/// The most steps that a worker still takes to make all its probes, on a
/// network that lets every step go on.
pub open spec fn steps_left(kind: MPingerType, run: RunView, state: ProbeState) -> nat {
    if state.phase == Phase::Done || state.ping_nr >= run.count {
        0
    } else {
        ((run.count - state.ping_nr - 1) * steps_per_probe(kind, run)) as nat
            + steps_of_probe_left(kind, run, state)
    }
}

/// Whether a worker is on its way through its probes: in a phase of its
/// prober, with probes left to make unless it is complete.
spec fn on_course(kind: MPingerType, run: RunView, state: ProbeState) -> bool {
    &&& run.count > 0
    &&& state.phase == Phase::Done ==> state.ping_nr == run.count
    &&& state.phase != Phase::Done ==> state.ping_nr < run.count
    &&& match kind {
        MPingerType::ICMPPing => match state.phase {
            Phase::Receiving => 1 <= state.retries_left <= run.config.ping_retries,
            Phase::Idle | Phase::Opening | Phase::Sending | Phase::Reporting | Phase::Sleeping
            | Phase::Done => true,
            _ => false,
        },
        MPingerType::TCPConnect => match state.phase {
            Phase::Idle | Phase::Opening | Phase::Connecting | Phase::Reporting | Phase::Closing
            | Phase::Sleeping | Phase::Done => true,
            _ => false,
        },
        MPingerType::HTTPKeepAlive => match state.phase {
            Phase::Idle | Phase::Connecting | Phase::Sending | Phase::Receiving
            | Phase::Draining | Phase::Reporting | Phase::Sleeping | Phase::Done => true,
            _ => false,
        },
        MPingerType::UDPPing => match state.phase {
            Phase::Idle | Phase::Opening | Phase::Sending | Phase::Receiving | Phase::Reporting
            | Phase::Sleeping | Phase::Done => true,
            _ => false,
        },
        MPingerType::Rnd => match state.phase {
            Phase::Idle | Phase::Reporting | Phase::Sleeping | Phase::Done => true,
            _ => false,
        },
    }
}

/// A step that the network lets go on keeps the worker on course and
/// brings it nearer to its end.
proof fn lemma_step_makes_progress(
    kind: MPingerType,
    run: RunView,
    state: ProbeState,
    input: StepInput,
)
    requires
        on_course(kind, run, state),
        permits(kind, state, input.event),
    ensures
        ({
            let next = worker_transition(kind, run, state, input.event, input.readings).0;
            &&& on_course(kind, run, next)
            &&& state.phase != Phase::Done ==> steps_left(kind, run, next) < steps_left(
                kind,
                run,
                state,
            )
            &&& state.phase == Phase::Done ==> next == state
        }),
{
    let next = worker_transition(kind, run, state, input.event, input.readings).0;
    let cycle = steps_per_probe(kind, run) as int;
    if state.phase != Phase::Done && next.phase != Phase::Done && next.ping_nr != state.ping_nr {
        let left = run.count - state.ping_nr - 1;
        assert((left - 1) * cycle + cycle == left * cycle) by (nonlinear_arith);
    }
    if state.phase != Phase::Done {
        let left = run.count - state.ping_nr - 1;
        assert(left * cycle >= 0) by (nonlinear_arith)
            requires
                left >= 0,
                cycle >= 0,
        ;
    }
}

/// On a network that lets every step go on, a worker stays on course, and
/// each step that finds it at work uses up one of the steps it has left.
proof fn lemma_run_makes_progress(kind: MPingerType, run: RunView, inputs: Seq<StepInput>)
    requires
        run.count > 0,
        permits_all(kind, run, initial_state(), inputs),
    ensures
        on_course(kind, run, state_after(kind, run, initial_state(), inputs)),
        state_after(kind, run, initial_state(), inputs).phase == Phase::Done || steps_left(
            kind,
            run,
            state_after(kind, run, initial_state(), inputs),
        ) + inputs.len() <= steps_left(kind, run, initial_state()),
    decreases inputs.len(),
{
    if inputs.len() > 0 {
        let earlier = inputs.drop_last();
        assert forall|k: int| 0 <= k < earlier.len() implies permits(
            kind,
            #[trigger] state_after(kind, run, initial_state(), earlier.take(k)),
            earlier[k].event,
        ) by {
            assert(earlier.take(k) =~= inputs.take(k));
        }
        lemma_run_makes_progress(kind, run, earlier);
        assert(inputs.take(inputs.len() - 1) =~= earlier);
        lemma_step_makes_progress(
            kind,
            run,
            state_after(kind, run, initial_state(), earlier),
            inputs.last(),
        );
    }
}

/// On a network that lets every step go on, a worker that was started for
/// `count` probes, with `count` above zero, makes them all: once it has
/// taken as many steps as it can have left at the start, it has stopped,
/// and it has handed out exactly `count` records, numbered from zero.
/// Probes that fail count like those that succeed: a TCP connect that is
/// refused, a UDP datagram that is not answered and an Echo Request whose
/// receive fails each end with their one record.
pub proof fn lemma_permitting_network_completes(
    kind: MPingerType,
    run: RunView,
    inputs: Seq<StepInput>,
)
    requires
        run.count > 0,
        permits_all(kind, run, initial_state(), inputs),
        inputs.len() >= steps_left(kind, run, initial_state()),
    ensures
        is_complete(run, state_after(kind, run, initial_state(), inputs)),
        records_of(kind, run, initial_state(), inputs).len() == run.count,
        forall|k: int|
            0 <= k < run.count ==> (#[trigger] records_of(
                kind,
                run,
                initial_state(),
                inputs,
            )[k]).ping_nr == k,
{
    lemma_run_makes_progress(kind, run, inputs);
    lemma_run_tallies(kind, run, inputs);
}

/// A worker that has stopped stays stopped and hands out nothing more.
pub proof fn lemma_stopped_worker_is_silent(
    kind: MPingerType,
    run: RunView,
    state: ProbeState,
    input: StepInput,
)
    requires
        state.phase == Phase::Done,
    ensures
        worker_transition(kind, run, state, input.event, input.readings) == (
            state,
            ActionView::Stop,
        ),
{
}

} // verus!
