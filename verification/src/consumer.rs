//! The background consumer: the latch that lets it start once, and what it
//! does with each thing that it receives.
//!
//! The task itself runs on whatever runtime the process has. It asks the
//! latch before it is spawned, and between two receives it asks
//! [`consumer_step`] what to do.

use crate::message::Message;
use vstd::prelude::*;

verus! {

/// The latch that lets the background consumer start exactly once.
#[derive(Debug)]
pub struct StartLatch {
    started: bool,
}

/// What the consumer does after a receive.
#[derive(Debug, Clone, PartialEq, Eq)]
pub enum ConsumerStep {
    /// Apply the message's side effect, then receive again.
    Handle(Message),
    /// The channel is closed: end the task, without an error.
    Stop,
}

/// What the consumer does after a receive that gave `next`: a message is
/// handled, and the end of the channel ends the task.
pub open spec fn step_for(next: Option<Message>) -> ConsumerStep {
    match next {
        Some(message) => ConsumerStep::Handle(message),
        None => ConsumerStep::Stop,
    }
}

/// What one call of `ensure_started` does: it answers `spawn`, which is
/// `true` exactly if the latch was not set before, and it leaves the latch
/// set.
pub open spec fn asked_to_start(before: bool, after: bool, spawn: bool) -> bool {
    spawn == !before && after
}

/// How many of `answers` told the caller to start the consumer.
pub open spec fn starts(answers: Seq<bool>) -> nat
    decreases answers.len(),
{
    if answers.len() == 0 {
        0
    } else {
        starts(answers.drop_last()) + if answers.last() {
            1nat
        } else {
            0nat
        }
    }
}

impl StartLatch {
    /// Whether the consumer has been started.
    pub closed spec fn view(&self) -> bool {
        self.started
    }

    /// A latch that nobody has set.
    pub fn new() -> (latch: StartLatch)
        ensures
            !latch@,
    {
        StartLatch { started: false }
    }

    /// Whether the consumer has been started.
    pub fn is_started(&self) -> (started: bool)
        ensures
            started == self@,
    {
        self.started
    }

    /// Asks for the consumer to run. The answer is `true` for the one call
    /// that has to spawn it, the first, and `false` for every call after it:
    /// the consumer is running.
    pub fn ensure_started(&mut self) -> (spawn: bool)
        ensures
            asked_to_start(old(self)@, final(self)@, spawn),
    {
        let spawn = !self.started;
        self.started = true;
        spawn
    }
}

/// Decides what the consumer does after a receive: a message is handled, and
/// the end of the channel ends the task.
pub fn consumer_step(next: Option<Message>) -> (step: ConsumerStep)
    ensures
        step == step_for(next),
{
    match next {
        Some(message) => ConsumerStep::Handle(message),
        None => ConsumerStep::Stop,
    }
}

/// Answers of which the first and only the first is `true` hold one start.
proof fn lemma_starts_of_first_only(answers: Seq<bool>)
    requires
        answers.len() >= 1,
        answers[0],
        forall|i: int| 1 <= i < answers.len() ==> !(#[trigger] answers[i]),
    ensures
        starts(answers) == 1,
    decreases answers.len(),
{
    let front = answers.drop_last();
    if front.len() == 0 {
        assert(starts(front) == 0);
    } else {
        assert(front[0] == answers[0]);
        assert forall|i: int| 1 <= i < front.len() implies !(#[trigger] front[i]) by {
            assert(front[i] == answers[i]);
        }
        lemma_starts_of_first_only(front);
    }
}

/// However often the consumer is asked to run, it is started exactly once.
///
/// Take any number of calls of `ensure_started` on a new latch, one after
/// the other: `states` holds the latch before the first call and after each
/// call, `answers` what each call returned. Then the first call, and only
/// the first, was told to spawn the consumer.
pub proof fn lemma_exactly_one_start(states: Seq<bool>, answers: Seq<bool>)
    requires
        answers.len() >= 1,
        states.len() == answers.len() + 1,
        !states[0],
        forall|i: int|
            0 <= i < answers.len() ==> asked_to_start(
                states[i],
                states[i + 1],
                #[trigger] answers[i],
            ),
    ensures
        answers[0],
        forall|i: int| 1 <= i < answers.len() ==> !(#[trigger] answers[i]),
        starts(answers) == 1,
{
    assert(asked_to_start(states[0], states[1], answers[0]));
    assert forall|i: int| 1 <= i < answers.len() implies !(#[trigger] answers[i]) by {
        assert(asked_to_start(states[i - 1], states[i], answers[i - 1]));
        assert(asked_to_start(states[i], states[i + 1], answers[i]));
    }
    lemma_starts_of_first_only(answers);
}

/// Once the consumer has been started, no call is told to start it again,
/// however the calls before went.
pub proof fn lemma_started_consumer_is_not_restarted(before: bool, after: bool, spawn: bool)
    requires
        before,
        asked_to_start(before, after, spawn),
    ensures
        !spawn,
        after,
{
}

} // verus!
