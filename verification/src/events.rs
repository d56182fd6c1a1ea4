//! The event-translation policy of the host loop.
//!
//! The OS dispatch loop hands the bridge one event at a time; the bridge
//! answers each with one action. The policy is small and total: while
//! running, a close request terminates the run and asks the loop to exit,
//! an idle notice asks for exactly one redraw of the owned window, a redraw
//! notice is the (currently empty) drawing extension point, and everything
//! else is ignored; once terminated, nothing further is dispatched.
//!
//! `next_state` and `action_for` state the policy for one event;
//! `final_state` and `dispatched_actions` extend it to a whole run, and
//! `process_events` executes such a run over a recorded event sequence.
//! The boundary layer feeds the same policy one OS event at a time.

use vstd::prelude::*;

verus! {

/// What the OS loop reports, reduced to the cases the policy distinguishes:
/// the user or OS asked the window to close, the OS asked for the window
/// contents to be drawn, the loop is idle and about to block for the next
/// OS event, or anything else.
#[derive(Clone, Copy, Debug, PartialEq, Eq, Structural)]
pub enum HostEvent {
    CloseRequested,
    RedrawRequested,
    AboutToWait,
    Other,
}

/// Whether the dispatch loop is still delivering events.
#[derive(Clone, Copy, Debug, PartialEq, Eq, Structural)]
pub enum LoopState {
    Running,
    Terminated,
}

/// What the bridge asks of the OS loop in answer to one event: exit the
/// loop, mark the owned window dirty so the OS schedules a redraw, or
/// nothing.
#[derive(Clone, Copy, Debug, PartialEq, Eq, Structural)]
pub enum HostAction {
    ExitLoop,
    RequestRedraw,
    Ignore,
}

/// The state after answering one event: a close request while running
/// terminates the run; nothing else changes the state, and a terminated
/// run stays terminated.
pub open spec fn next_state(state: LoopState, event: HostEvent) -> LoopState {
    match state {
        LoopState::Terminated => LoopState::Terminated,
        LoopState::Running => match event {
            HostEvent::CloseRequested => LoopState::Terminated,
            _ => LoopState::Running,
        },
    }
}

/// The answer to one event: while running, a close request is answered
/// with the exit action, an idle notice with one redraw request, and a
/// redraw notice — the drawing extension point, currently empty — like
/// every other event with no action at all.
pub open spec fn action_for(state: LoopState, event: HostEvent) -> HostAction {
    match state {
        LoopState::Terminated => HostAction::Ignore,
        LoopState::Running => match event {
            HostEvent::CloseRequested => HostAction::ExitLoop,
            HostEvent::AboutToWait => HostAction::RequestRedraw,
            HostEvent::RedrawRequested => HostAction::Ignore,
            HostEvent::Other => HostAction::Ignore,
        },
    }
}

/// Answers one event: exactly `next_state` and `action_for`.
pub fn handle_event(state: LoopState, event: HostEvent) -> (r: (LoopState, HostAction))
    ensures
        r.0 == next_state(state, event),
        r.1 == action_for(state, event),
{
    match state {
        LoopState::Terminated => (LoopState::Terminated, HostAction::Ignore),
        LoopState::Running => match event {
            HostEvent::CloseRequested => (LoopState::Terminated, HostAction::ExitLoop),
            HostEvent::AboutToWait => (LoopState::Running, HostAction::RequestRedraw),
            HostEvent::RedrawRequested => (LoopState::Running, HostAction::Ignore),
            HostEvent::Other => (LoopState::Running, HostAction::Ignore),
        },
    }
}

/// The state after a run over `events[i..]`, starting from `state`. A
/// terminated run consumes nothing further.
pub open spec fn final_state_from(state: LoopState, events: Seq<HostEvent>, i: int) -> LoopState
    decreases events.len() - i
        when 0 <= i <= events.len()
{
    if i == events.len() || state is Terminated {
        state
    } else {
        final_state_from(next_state(state, events[i]), events, i + 1)
    }
}

/// The state after a whole run over `events`, starting from `state`.
pub open spec fn final_state(state: LoopState, events: Seq<HostEvent>) -> LoopState {
    final_state_from(state, events, 0)
}

/// The actions of a run over `events[i..]`, starting from `state`, one per
/// dispatched event. Once the run is terminated no event is dispatched, so
/// no further action appears.
pub open spec fn dispatched_from(state: LoopState, events: Seq<HostEvent>, i: int) -> Seq<
    HostAction,
>
    decreases events.len() - i
        when 0 <= i <= events.len()
{
    if i == events.len() || state is Terminated {
        Seq::empty()
    } else {
        seq![action_for(state, events[i])] + dispatched_from(
            next_state(state, events[i]),
            events,
            i + 1,
        )
    }
}

/// The actions of a whole run over `events`, starting from `state`.
pub open spec fn dispatched_actions(state: LoopState, events: Seq<HostEvent>) -> Seq<HostAction> {
    dispatched_from(state, events, 0)
}

/// Runs the policy over a recorded event sequence, starting in the running
/// state: returns the final state and the actions of the run, exactly as
/// `final_state` and `dispatched_actions` state them.
pub fn process_events(events: &Vec<HostEvent>) -> (r: (LoopState, Vec<HostAction>))
    ensures
        r.0 == final_state(LoopState::Running, events@),
        r.1@ == dispatched_actions(LoopState::Running, events@),
{
    let n = events.len();
    let mut state = LoopState::Running;
    let mut actions: Vec<HostAction> = Vec::new();
    let mut i: usize = 0;
    while i < n
        invariant
            i <= n,
            n == events@.len(),
            final_state(LoopState::Running, events@) == final_state_from(
                state,
                events@,
                i as int,
            ),
            dispatched_actions(LoopState::Running, events@) == actions@ + dispatched_from(
                state,
                events@,
                i as int,
            ),
        decreases n - i,
    {
        match state {
            LoopState::Running => {
                let ghost prev = actions@;
                let (next, action) = handle_event(state, events[i]);
                actions.push(action);
                proof {
                    assert((prev + seq![action]) + dispatched_from(next, events@, i as int + 1)
                        =~= prev + (seq![action] + dispatched_from(next, events@, i as int + 1)));
                }
                state = next;
            },
            LoopState::Terminated => {
            },
        }
        i = i + 1;
    }
    proof {
        assert(actions@ + dispatched_from(state, events@, n as int) =~= actions@);
    }
    (state, actions)
}

/// Law: while running, a single close request terminates the run. The
/// close event itself is answered with the exit action, and whatever
/// events may follow it, none is dispatched and no further action is
/// produced.
pub proof fn lemma_close_request_terminates(events: Seq<HostEvent>)
    requires
        events.len() >= 1,
        events[0] == HostEvent::CloseRequested,
    ensures
        final_state(LoopState::Running, events) == LoopState::Terminated,
        dispatched_actions(LoopState::Running, events) == seq![HostAction::ExitLoop],
{
    reveal_with_fuel(final_state_from, 2);
    reveal_with_fuel(dispatched_from, 2);
    assert(dispatched_actions(LoopState::Running, events) =~= seq![HostAction::ExitLoop]);
}

/// Law: a terminated run is terminal. Whatever events arrive, the state
/// stays terminated and nothing is dispatched.
pub proof fn lemma_terminated_is_terminal(events: Seq<HostEvent>)
    ensures
        final_state(LoopState::Terminated, events) == LoopState::Terminated,
        dispatched_actions(LoopState::Terminated, events) == Seq::<HostAction>::empty(),
{
}

/// While no close request arrives, the run stays in the running state and
/// answers each event in its own dispatch slot with `action_for`.
proof fn lemma_run_stays_running(events: Seq<HostEvent>, i: int)
    requires
        0 <= i <= events.len(),
        forall|j: int| i <= j < events.len() ==> events[j] != HostEvent::CloseRequested,
    ensures
        final_state_from(LoopState::Running, events, i) == LoopState::Running,
        dispatched_from(LoopState::Running, events, i).len() == events.len() - i,
        forall|j: int|
            0 <= j < events.len() - i ==> dispatched_from(LoopState::Running, events, i)[j]
                == action_for(LoopState::Running, events[i + j]),
    decreases events.len() - i,
{
    if i < events.len() {
        assert(next_state(LoopState::Running, events[i]) == LoopState::Running);
        lemma_run_stays_running(events, i + 1);
    }
}

/// Law: while running, every idle (`AboutToWait`) event produces exactly
/// one redraw request. In a run free of close requests every event is
/// dispatched, each answer stands in the dispatch slot of its event, and
/// an answer is a redraw request exactly when its event was an idle
/// notice — so repeated idle cycles queue one redraw each, never more.
pub proof fn lemma_one_redraw_per_idle(events: Seq<HostEvent>)
    requires
        forall|j: int| 0 <= j < events.len() ==> events[j] != HostEvent::CloseRequested,
    ensures
        final_state(LoopState::Running, events) == LoopState::Running,
        dispatched_actions(LoopState::Running, events).len() == events.len(),
        forall|j: int|
            0 <= j < events.len() ==> dispatched_actions(LoopState::Running, events)[j]
                == action_for(LoopState::Running, events[j]),
        forall|j: int|
            0 <= j < events.len() ==> (dispatched_actions(LoopState::Running, events)[j]
                == HostAction::RequestRedraw <==> events[j] == HostEvent::AboutToWait),
{
    lemma_run_stays_running(events, 0);
}

} // verus!
