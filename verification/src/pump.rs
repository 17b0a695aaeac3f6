//! The session event pump: submit the prompt, drain events until the task
//! completes, request shutdown once, and stop when shutdown completes.

use vstd::prelude::*;

verus! {

/// An operation submitted to a conversation.
#[derive(Clone, Debug)]
pub enum Op {
    UserInput(String),
    Shutdown,
}

/// An event received from a conversation, reduced to what the pump and the
/// dispatcher read.
#[derive(Clone, Debug)]
pub enum EventMsg {
    /// The task finished, with the last agent message if there was one.
    TaskComplete(Option<String>),
    AgentMessage(String),
    ShutdownComplete,
    Other,
}

/// Where the pump stands: before the task has completed, after it requested
/// shutdown, or finished.
#[derive(Clone, Copy, Debug, PartialEq, Eq, Structural)]
pub enum PumpPhase {
    AwaitingTask,
    AwaitingShutdown,
    Done,
}

/// The pump's state between events.
pub struct PumpState {
    pub phase: PumpPhase,
    pub last_message: Option<String>,
}

/// Whether processing an event in a phase submits the shutdown request:
/// exactly on a task completion that arrives before any other completed.
pub open spec fn spec_submits_shutdown(phase: PumpPhase, e: EventMsg) -> bool {
    phase == PumpPhase::AwaitingTask && e matches EventMsg::TaskComplete(_)
}

/// The phase after processing an event.
pub open spec fn spec_next_phase(phase: PumpPhase, e: EventMsg) -> PumpPhase {
    match e {
        EventMsg::TaskComplete(_) => if phase == PumpPhase::AwaitingTask {
            PumpPhase::AwaitingShutdown
        } else {
            phase
        },
        EventMsg::ShutdownComplete => PumpPhase::Done,
        _ => phase,
    }
}

/// Starting the pump: the submitted operation is the user input carrying the
/// prompt, exactly once.
pub fn pump_start(prompt: String) -> (r: (PumpState, Op))
    ensures
        r.0.phase == PumpPhase::AwaitingTask,
        r.0.last_message is None,
        r.1 == Op::UserInput(prompt),
{
    (PumpState { phase: PumpPhase::AwaitingTask, last_message: None }, Op::UserInput(prompt))
}

/// One step of the pump: the new state, the operation to submit (shutdown,
/// exactly on the first task completion), and whether to stop draining
/// (exactly on shutdown completion).
pub fn pump_on_event(state: PumpState, event: &EventMsg) -> (r: (PumpState, Option<Op>, bool))
    ensures
        r.0.phase == spec_next_phase(state.phase, *event),
        (match r.1 {
            Some(op) => op is Shutdown && spec_submits_shutdown(state.phase, *event),
            None => !spec_submits_shutdown(state.phase, *event),
        }),
        r.2 == (*event is ShutdownComplete),
        (match event {
            EventMsg::TaskComplete(m) => r.0.last_message.deep_view() == m.deep_view(),
            _ => r.0.last_message == state.last_message,
        }),
{
    match event {
        EventMsg::TaskComplete(m) => {
            let recorded = match m {
                Some(text) => Some(text.clone()),
                None => None,
            };
            if matches!(state.phase, PumpPhase::AwaitingTask) {
                (
                    PumpState { phase: PumpPhase::AwaitingShutdown, last_message: recorded },
                    Some(Op::Shutdown),
                    false,
                )
            } else {
                (PumpState { phase: state.phase, last_message: recorded }, None, false)
            }
        },
        EventMsg::ShutdownComplete => {
            (PumpState { phase: PumpPhase::Done, last_message: state.last_message }, None, true)
        },
        _ => (state, None, false),
    }
}

/// How many shutdown requests draining a sequence of events submits,
/// processing in order and stopping at the first shutdown completion.
pub open spec fn spec_drain_shutdowns(phase: PumpPhase, events: Seq<EventMsg>) -> nat
    decreases events.len(),
{
    if events.len() == 0 {
        0
    } else {
        let e = events[0];
        let c: nat = if spec_submits_shutdown(phase, e) {
            1
        } else {
            0
        };
        if e is ShutdownComplete {
            c
        } else {
            c + spec_drain_shutdowns(spec_next_phase(phase, e), events.skip(1))
        }
    }
}

/// Whether a task completion is processed: one appears before the first
/// shutdown completion.
pub open spec fn spec_task_seen(events: Seq<EventMsg>) -> bool
    decreases events.len(),
{
    if events.len() == 0 {
        false
    } else if events[0] is TaskComplete {
        true
    } else if events[0] is ShutdownComplete {
        false
    } else {
        spec_task_seen(events.skip(1))
    }
}

/// Once shutdown has been requested, draining submits no further one.
proof fn lemma_drain_after_request(phase: PumpPhase, events: Seq<EventMsg>)
    requires
        phase != PumpPhase::AwaitingTask,
    ensures
        spec_drain_shutdowns(phase, events) == 0,
    decreases events.len(),
{
    if events.len() > 0 {
        let e = events[0];
        if !(e is ShutdownComplete) {
            lemma_drain_after_request(spec_next_phase(phase, e), events.skip(1));
        }
    }
}

/// The pump submits at most one shutdown request over any drained event
/// sequence, and exactly one precisely when a task completion is processed
/// before the first shutdown completion.
pub proof fn lemma_pump_shutdown_once(events: Seq<EventMsg>)
    ensures
        spec_drain_shutdowns(PumpPhase::AwaitingTask, events) <= 1,
        spec_drain_shutdowns(PumpPhase::AwaitingTask, events) == 1 <==> spec_task_seen(events),
    decreases events.len(),
{
    if events.len() > 0 {
        let e = events[0];
        match e {
            EventMsg::TaskComplete(_) => {
                if !(e is ShutdownComplete) {
                    lemma_drain_after_request(PumpPhase::AwaitingShutdown, events.skip(1));
                }
            },
            EventMsg::ShutdownComplete => {},
            _ => {
                lemma_pump_shutdown_once(events.skip(1));
            },
        }
    }
}

/// The message recorded after draining: the payload of the last task
/// completion processed before the first shutdown completion, else `acc`.
pub open spec fn spec_drain_last(acc: Option<Seq<char>>, events: Seq<EventMsg>) -> Option<
    Seq<char>,
>
    decreases events.len(),
{
    if events.len() == 0 {
        acc
    } else {
        match events[0] {
            EventMsg::ShutdownComplete => acc,
            EventMsg::TaskComplete(m) => spec_drain_last(m.deep_view(), events.skip(1)),
            _ => spec_drain_last(acc, events.skip(1)),
        }
    }
}

/// Drains a whole sequence of events: returns the recorded last message and
/// every submitted operation, the user input first.
pub fn pump_drain(prompt: String, events: &Vec<EventMsg>) -> (r: (Option<String>, Vec<Op>))
    ensures
        r.1@.len() == 1 + spec_drain_shutdowns(PumpPhase::AwaitingTask, events@),
        r.1@.len() <= 2,
        r.1@[0] == Op::UserInput(prompt),
        (r.1@.len() == 2 ==> r.1@[1] is Shutdown),
        (r.1@.len() == 2 <==> spec_task_seen(events@)),
        r.0.deep_view() == spec_drain_last(None, events@),
{
    let (start, first_op) = pump_start(prompt);
    let mut ops: Vec<Op> = Vec::new();
    ops.push(first_op);
    let mut state = start;
    let n = events.len();
    let mut i: usize = 0;
    let mut stopped = false;
    let ghost total = spec_drain_shutdowns(PumpPhase::AwaitingTask, events@);
    let ghost last_total = spec_drain_last(None, events@);
    proof {
        lemma_pump_shutdown_once(events@);
        assert(events@.skip(0) =~= events@);
    }
    while i < n && !stopped
        invariant
            i <= n,
            n == events@.len(),
            total == spec_drain_shutdowns(PumpPhase::AwaitingTask, events@),
            total <= 1,
            last_total == spec_drain_last(None, events@),
            !stopped ==> total == (ops@.len() - 1) + spec_drain_shutdowns(
                state.phase,
                events@.skip(i as int),
            ),
            !stopped ==> last_total == spec_drain_last(
                state.last_message.deep_view(),
                events@.skip(i as int),
            ),
            stopped ==> total == ops@.len() - 1,
            stopped ==> last_total == state.last_message.deep_view(),
            ops@.len() >= 1,
            ops@[0] == Op::UserInput(prompt),
            ops@.len() - 1 <= total,
            (ops@.len() >= 2 ==> ops@[1] is Shutdown),
            state.phase == PumpPhase::AwaitingTask ==> ops@.len() == 1,
        decreases n - i,
    {
        let event = &events[i];
        proof {
            assert(events@.skip(i as int)[0] == events@[i as int]);
            assert(events@.skip(i as int).skip(1) =~= events@.skip(i as int + 1));
        }
        let (next, op, stop) = pump_on_event(state, event);
        state = next;
        match op {
            Some(o) => {
                ops.push(o);
            },
            None => {},
        }
        i = i + 1;
        if stop {
            stopped = true;
        }
    }
    proof {
        if !stopped {
            assert(events@.skip(n as int) =~= Seq::<EventMsg>::empty());
        }
    }
    (state.last_message, ops)
}

} // verus!
