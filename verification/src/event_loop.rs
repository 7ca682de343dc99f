//! The native loop as a state machine.
//!
//! The thread that owns the render surface feeds every event it receives to
//! [`NativeLoop::handle`] and performs the action that comes back. Nothing
//! else may touch the surface, so the actions returned here are the only
//! mutations it ever sees.

use crate::error::BridgeError;
use crate::RuntimeMessage;
use vstd::prelude::*;

verus! {

/// Where the loop stands.
#[derive(Debug, Clone, Copy, PartialEq, Eq, Structural)]
pub enum LoopState {
    /// Events are dispatched.
    Running,
    /// The window was closed; terminal.
    Exiting,
}

/// What the windowing system delivers to the loop.
#[derive(Debug, Clone, PartialEq, Eq)]
pub enum LoopEvent {
    /// The user asked to close the window.
    WindowClose,
    /// An instruction that another thread posted through the proxy.
    UserEvent(RuntimeMessage),
    /// Anything the loop has no rule for.
    Other,
}

/// What the owner of the surface has to do after an event.
#[derive(Debug, Clone, PartialEq, Eq)]
pub enum LoopAction {
    /// Run the script against the render surface.
    Evaluate(String),
    /// Stop dispatching and release the render surface.
    Exit,
    /// Nothing; wait for the next event.
    Idle,
}

/// How the loop should wait once the current event is handled.
#[derive(Debug, Clone, Copy, PartialEq, Eq, Structural)]
pub enum ControlFlow {
    /// Block until the next event arrives.
    Wait,
    /// Leave the loop.
    Exit,
}

/// The state that follows `state` when `event` arrives.
pub open spec fn next_state(state: LoopState, event: LoopEvent) -> LoopState {
    match (state, event) {
        (LoopState::Running, LoopEvent::WindowClose) => LoopState::Exiting,
        (LoopState::Running, _) => LoopState::Running,
        (LoopState::Exiting, _) => LoopState::Exiting,
    }
}

/// The action that `event` calls for when it arrives in `state`.
pub open spec fn action_for(state: LoopState, event: LoopEvent) -> LoopAction {
    match (state, event) {
        (LoopState::Running, LoopEvent::WindowClose) => LoopAction::Exit,
        (LoopState::Running, LoopEvent::UserEvent(RuntimeMessage::Eval(script))) => {
            LoopAction::Evaluate(script)
        },
        (LoopState::Running, LoopEvent::Other) => LoopAction::Idle,
        (LoopState::Exiting, _) => LoopAction::Idle,
    }
}

/// The state reached from `start` once all of `events` have arrived in order.
pub open spec fn state_after(start: LoopState, events: Seq<LoopEvent>) -> LoopState
    decreases events.len(),
{
    if events.len() == 0 {
        start
    } else {
        next_state(state_after(start, events.drop_last()), events.last())
    }
}

/// The action taken for the event at index `i` of `events`, the loop having
/// started in `start`.
pub open spec fn action_at(start: LoopState, events: Seq<LoopEvent>, i: int) -> LoopAction
    recommends
        0 <= i < events.len(),
{
    action_for(state_after(start, events.take(i)), events[i])
}

/// The scripts that the surface evaluates, in order, while `events` arrive at
/// a loop that started in `start`.
pub open spec fn evaluated_scripts(start: LoopState, events: Seq<LoopEvent>) -> Seq<Seq<char>>
    decreases events.len(),
{
    if events.len() == 0 {
        Seq::empty()
    } else {
        let before = evaluated_scripts(start, events.drop_last());
        match action_for(state_after(start, events.drop_last()), events.last()) {
            LoopAction::Evaluate(script) => before.push(script@),
            _ => before,
        }
    }
}

/// The scripts that were posted to the loop, in posting order, whether or not
/// the loop was still running when they arrived.
pub open spec fn posted_scripts(events: Seq<LoopEvent>) -> Seq<Seq<char>>
    decreases events.len(),
{
    if events.len() == 0 {
        Seq::empty()
    } else {
        let before = posted_scripts(events.drop_last());
        match events.last() {
            LoopEvent::UserEvent(RuntimeMessage::Eval(script)) => before.push(script@),
            _ => before,
        }
    }
}

/// No event of `events` is a window close.
pub open spec fn never_closed(events: Seq<LoopEvent>) -> bool {
    forall|i: int| 0 <= i < events.len() ==> !(#[trigger] events[i] is WindowClose)
}

/// The loop's own state. It is owned by the thread that runs the loop.
#[derive(Debug)]
pub struct NativeLoop {
    state: LoopState,
}

impl NativeLoop {
    /// The state the loop is in.
    pub closed spec fn view(&self) -> LoopState {
        self.state
    }

    /// A loop in its initial state, `Running`.
    pub fn new() -> (event_loop: NativeLoop)
        ensures
            event_loop@ == LoopState::Running,
    {
        NativeLoop { state: LoopState::Running }
    }

    /// The state the loop is in.
    pub fn state(&self) -> (state: LoopState)
        ensures
            state == self@,
    {
        self.state
    }

    /// Whether events are still dispatched.
    pub fn is_running(&self) -> (running: bool)
        ensures
            running == (self@ == LoopState::Running),
    {
        match self.state {
            LoopState::Running => true,
            LoopState::Exiting => false,
        }
    }

    /// How the loop should wait for its next event: it blocks while running
    /// and leaves once it is exiting.
    pub fn control_flow(&self) -> (flow: ControlFlow)
        ensures
            flow == (match self@ {
                LoopState::Running => ControlFlow::Wait,
                LoopState::Exiting => ControlFlow::Exit,
            }),
    {
        match self.state {
            LoopState::Running => ControlFlow::Wait,
            LoopState::Exiting => ControlFlow::Exit,
        }
    }

    /// Takes one event and says what the owner of the surface has to do.
    ///
    /// A window close ends the loop. An `Eval` instruction that arrives while
    /// the loop runs is handed out for evaluation. Every other event, and
    /// every event that arrives after the close, is ignored.
    pub fn handle(&mut self, event: LoopEvent) -> (action: LoopAction)
        ensures
            final(self)@ == next_state(old(self)@, event),
            action == action_for(old(self)@, event),
    {
        match self.state {
            LoopState::Exiting => LoopAction::Idle,
            LoopState::Running => match event {
                LoopEvent::WindowClose => {
                    self.state = LoopState::Exiting;
                    LoopAction::Exit
                },
                LoopEvent::UserEvent(RuntimeMessage::Eval(script)) => LoopAction::Evaluate(script),
                LoopEvent::Other => LoopAction::Idle,
            },
        }
    }

    /// Takes the result of an evaluation that the owner of the surface
    /// performed. A failure is handed back as the error to report; the loop's
    /// state is not touched, so it keeps running.
    pub fn evaluation_finished(&self, result: Result<(), String>) -> (report: Option<BridgeError>)
        ensures
            report == (match result {
                Ok(_) => None::<BridgeError>,
                Err(detail) => Some(BridgeError::ScriptEvaluationFailure(detail)),
            }),
    {
        match result {
            Ok(_) => None,
            Err(detail) => Some(BridgeError::ScriptEvaluationFailure(detail)),
        }
    }
}

/// Once the loop is exiting it stays so, whatever arrives.
pub proof fn lemma_exiting_is_terminal(events: Seq<LoopEvent>)
    ensures
        state_after(LoopState::Exiting, events) == LoopState::Exiting,
    decreases events.len(),
{
    if events.len() > 0 {
        lemma_exiting_is_terminal(events.drop_last());
    }
}

/// A loop that has seen no window close is still running.
pub proof fn lemma_running_until_closed(events: Seq<LoopEvent>)
    requires
        never_closed(events),
    ensures
        state_after(LoopState::Running, events) == LoopState::Running,
    decreases events.len(),
{
    if events.len() > 0 {
        let before = events.drop_last();
        assert forall|i: int| 0 <= i < before.len() implies !(#[trigger] before[i] is WindowClose) by {
            assert(before[i] == events[i]);
        }
        lemma_running_until_closed(before);
    }
}

/// A loop that started running and has seen a window close is exiting.
pub proof fn lemma_exiting_once_closed(events: Seq<LoopEvent>, close: int)
    requires
        0 <= close < events.len(),
        events[close] is WindowClose,
    ensures
        state_after(LoopState::Running, events) == LoopState::Exiting,
    decreases events.len(),
{
    let before = events.drop_last();
    if close == events.len() - 1 {
        if state_after(LoopState::Running, before) == LoopState::Exiting {
        }
    } else {
        assert(before[close] == events[close]);
        lemma_exiting_once_closed(before, close);
    }
}

/// A window close that arrives while the loop runs moves it to `Exiting`, and
/// no event delivered after the close is applied: whatever arrives later,
/// a posted instruction included, is answered with `Idle` and leaves the
/// loop exiting.
pub proof fn lemma_close_ends_dispatch(events: Seq<LoopEvent>, close: int, later: int)
    requires
        0 <= close < later < events.len(),
        events[close] is WindowClose,
    ensures
        state_after(LoopState::Running, events.take(close + 1)) == LoopState::Exiting,
        action_at(LoopState::Running, events, later) == LoopAction::Idle,
        state_after(LoopState::Running, events.take(later + 1)) == LoopState::Exiting,
{
    let upto = events.take(close + 1);
    assert(upto[close] == events[close]);
    lemma_exiting_once_closed(upto, close);
    let seen = events.take(later);
    assert(seen[close] == events[close]);
    lemma_exiting_once_closed(seen, close);
    let through = events.take(later + 1);
    assert(through[close] == events[close]);
    lemma_exiting_once_closed(through, close);
}

/// The first window close that reaches a running loop is answered with
/// `Exit`.
pub proof fn lemma_first_close_exits(events: Seq<LoopEvent>, close: int)
    requires
        0 <= close < events.len(),
        events[close] is WindowClose,
        never_closed(events.take(close)),
    ensures
        action_at(LoopState::Running, events, close) == LoopAction::Exit,
{
    lemma_running_until_closed(events.take(close));
}

/// While the window stays open, the surface evaluates exactly the scripts
/// that were posted, in the order in which they were posted.
pub proof fn lemma_scripts_applied_in_posting_order(events: Seq<LoopEvent>)
    requires
        never_closed(events),
    ensures
        evaluated_scripts(LoopState::Running, events) == posted_scripts(events),
    decreases events.len(),
{
    if events.len() > 0 {
        let before = events.drop_last();
        assert forall|i: int| 0 <= i < before.len() implies !(#[trigger] before[i] is WindowClose) by {
            assert(before[i] == events[i]);
        }
        lemma_scripts_applied_in_posting_order(before);
        lemma_running_until_closed(before);
        assert(!(events[events.len() - 1] is WindowClose));
    }
}

/// Nothing that arrives after a window close is evaluated: the scripts
/// evaluated over all of `events` are those evaluated before the close.
pub proof fn lemma_no_script_after_close(events: Seq<LoopEvent>, close: int)
    requires
        0 <= close < events.len(),
        events[close] is WindowClose,
    ensures
        evaluated_scripts(LoopState::Running, events) == evaluated_scripts(
            LoopState::Running,
            events.take(close),
        ),
    decreases events.len(),
{
    let before = events.drop_last();
    if close == events.len() - 1 {
        assert(before == events.take(close));
    } else {
        assert(before[close] == events[close]);
        lemma_no_script_after_close(before, close);
        lemma_exiting_once_closed(before, close);
        assert(before.take(close) == events.take(close));
    }
}

} // verus!
