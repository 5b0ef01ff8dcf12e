//! The loop that turns notifications into reconciliations.
//!
//! The loop decides; the caller does the work. Each call of
//! [`ReconciliationLoop::step`] takes what the last piece of work came to and
//! gives the next piece of work. One thing is asked for at a time, so
//! a reconciliation has ended before the next notification is looked at.

use crate::error::{Failure, OutOfTurn};
use crate::event::BusEvent;
use crate::watcher::{decode, qualifies};
use dbus::Message;
use vstd::prelude::*;

verus! {

/// The two states of the loop.
#[derive(Debug, Clone, Copy, PartialEq, Eq)]
pub enum LoopState {
    /// Notifications are being consumed.
    Running,
    /// The subscription is given up and no notification will be looked at.
    Terminated,
}

/// Where the loop stands, with what it holds there. `S` is the handle of
/// the subscription.
#[derive(Debug, PartialEq, Eq)]
pub enum Stage<S> {
    /// Running, and waiting for the next notification.
    Listening(S),
    /// Running, and waiting for a reconciliation to end.
    Reconciling(S),
    /// Terminated by the failure held, and waiting for the release of the
    /// subscription to end.
    Releasing(Failure),
    /// Terminated, and waiting for nothing.
    Finished,
}

impl<S> Stage<S> {
    /// The state that the stage belongs to.
    pub open spec fn state(self) -> LoopState {
        match self {
            Stage::Listening(_) | Stage::Reconciling(_) => LoopState::Running,
            Stage::Releasing(_) | Stage::Finished => LoopState::Terminated,
        }
    }

    /// The subscription that the loop holds at this stage, if it holds one.
    pub open spec fn subscription(self) -> Option<S> {
        match self {
            Stage::Listening(held) | Stage::Reconciling(held) => Some(held),
            Stage::Releasing(_) | Stage::Finished => None,
        }
    }
}

/// What the caller hands to the loop.
#[derive(Debug)]
pub enum LoopInput {
    /// The stream delivered a message: the notification read from it, or
    /// the failure to read one.
    Delivered(Result<BusEvent, Failure>),
    /// The stream of notifications ended.
    Closed,
    /// The reconciliation that was asked for ended, with this result.
    Reconciled(Result<(), Failure>),
    /// The release of the subscription ended: well, or with the words of
    /// the bus.
    Unsubscribed(Result<(), String>),
}

/// What the loop asks of the caller.
#[derive(Debug, PartialEq, Eq)]
pub enum LoopCommand<S> {
    /// Wait for the stream's next item and hand back
    /// [`LoopInput::Delivered`] or [`LoopInput::Closed`].
    NextEvent,
    /// Run one reconciliation to its end and hand back
    /// [`LoopInput::Reconciled`].
    Reconcile,
    /// Release this subscription and hand back [`LoopInput::Unsubscribed`].
    Unsubscribe(S),
    /// End the process with this failure.
    Exit(Failure),
}

/// One move of the loop: a failure to report on the diagnostic channel, if
/// there is one, and then the command to carry out.
#[derive(Debug, PartialEq, Eq)]
pub struct LoopStep<S> {
    /// The failure to report before anything else is done.
    pub report: Option<Failure>,
    /// What to do next.
    pub command: LoopCommand<S>,
}

/// The move after a failure while running. One that is not fatal is
/// reported and the loop listens on. A fatal one ends the loop: the
/// subscription is handed out to be released.
pub open spec fn after_failure<S>(held: S, failure: Failure) -> (Stage<S>, LoopStep<S>) {
    if failure.fatal() {
        (Stage::Releasing(failure), LoopStep { report: None, command: LoopCommand::Unsubscribe(held) })
    } else {
        (Stage::Listening(held), LoopStep { report: Some(failure), command: LoopCommand::NextEvent })
    }
}

/// The loop's move: from a stage and an input to the next stage and the
/// step to take. `None` where the input does not answer what the stage
/// waits for.
pub open spec fn next_step<S>(stage: Stage<S>, input: LoopInput) -> Option<(Stage<S>, LoopStep<S>)> {
    match (stage, input) {
        (Stage::Listening(held), LoopInput::Delivered(Ok(event))) => if qualifies(event@) {
            Some((Stage::Reconciling(held), LoopStep { report: None, command: LoopCommand::Reconcile }))
        } else {
            Some((Stage::Listening(held), LoopStep { report: None, command: LoopCommand::NextEvent }))
        },
        (Stage::Listening(held), LoopInput::Delivered(Err(failure))) => Some(
            after_failure(held, failure),
        ),
        (Stage::Listening(held), LoopInput::Closed) => Some(
            after_failure(held, Failure::Disconnected),
        ),
        (Stage::Reconciling(held), LoopInput::Reconciled(Ok(_))) => Some(
            (Stage::Listening(held), LoopStep { report: None, command: LoopCommand::NextEvent }),
        ),
        (Stage::Reconciling(held), LoopInput::Reconciled(Err(failure))) => Some(
            after_failure(held, failure),
        ),
        (Stage::Releasing(cause), LoopInput::Unsubscribed(Ok(_))) => Some(
            (Stage::Finished, LoopStep { report: None, command: LoopCommand::Exit(cause) }),
        ),
        (Stage::Releasing(cause), LoopInput::Unsubscribed(Err(detail))) => Some(
            (
                Stage::Finished,
                LoopStep {
                    report: Some(cause),
                    command: LoopCommand::Exit(Failure::Subscription(detail)),
                },
            ),
        ),
        _ => None,
    }
}

/// The driver of the agent. It owns the subscription from the moment it is
/// made until the loop terminates, and then hands it out to be released.
#[derive(Debug)]
pub struct ReconciliationLoop<S> {
    stage: Stage<S>,
}

impl<S> ReconciliationLoop<S> {
    /// Where the loop stands.
    pub closed spec fn stage(&self) -> Stage<S> {
        self.stage
    }

    /// The loop over a subscription that was just made: running, and
    /// waiting for the first notification.
    pub fn new(subscription: S) -> (driver: Self)
        ensures
            driver.stage() == Stage::Listening(subscription),
    {
        ReconciliationLoop { stage: Stage::Listening(subscription) }
    }

    /// The state of the loop.
    pub fn state(&self) -> (state: LoopState)
        ensures
            state == self.stage().state(),
    {
        match &self.stage {
            Stage::Listening(_) => LoopState::Running,
            Stage::Reconciling(_) => LoopState::Running,
            Stage::Releasing(_) => LoopState::Terminated,
            Stage::Finished => LoopState::Terminated,
        }
    }

    /// Takes the loop one step further.
    ///
    /// Where `input` answers what the loop waits for, the loop moves as
    /// [`next_step`] says and returns the step to take. Otherwise it stays
    /// as it is and returns [`OutOfTurn`].
    pub fn step(&mut self, input: LoopInput) -> (step: Result<LoopStep<S>, OutOfTurn>)
        ensures
            match next_step(old(self).stage(), input) {
                Some((stage, taken)) => {
                    &&& step == Ok::<LoopStep<S>, OutOfTurn>(taken)
                    &&& final(self).stage() == stage
                },
                None => {
                    &&& step == Err::<LoopStep<S>, OutOfTurn>(OutOfTurn)
                    &&& *final(self) == *old(self)
                },
            },
    {
        let mut stage: Stage<S> = Stage::Finished;
        core::mem::swap(&mut self.stage, &mut stage);
        match (stage, input) {
            (Stage::Listening(held), LoopInput::Delivered(Ok(event))) => {
                if crate::watcher::matches(&event) {
                    self.stage = Stage::Reconciling(held);
                    Ok(LoopStep { report: None, command: LoopCommand::Reconcile })
                } else {
                    self.stage = Stage::Listening(held);
                    Ok(LoopStep { report: None, command: LoopCommand::NextEvent })
                }
            },
            (Stage::Listening(held), LoopInput::Delivered(Err(failure))) => Ok(
                self.fail(held, failure),
            ),
            (Stage::Listening(held), LoopInput::Closed) => Ok(self.fail(held, Failure::Disconnected)),
            (Stage::Reconciling(held), LoopInput::Reconciled(Ok(_))) => {
                self.stage = Stage::Listening(held);
                Ok(LoopStep { report: None, command: LoopCommand::NextEvent })
            },
            (Stage::Reconciling(held), LoopInput::Reconciled(Err(failure))) => Ok(
                self.fail(held, failure),
            ),
            (Stage::Releasing(cause), LoopInput::Unsubscribed(Ok(_))) => {
                self.stage = Stage::Finished;
                Ok(LoopStep { report: None, command: LoopCommand::Exit(cause) })
            },
            (Stage::Releasing(cause), LoopInput::Unsubscribed(Err(detail))) => {
                self.stage = Stage::Finished;
                Ok(
                    LoopStep {
                        report: Some(cause),
                        command: LoopCommand::Exit(Failure::Subscription(detail)),
                    },
                )
            },
            (unchanged, _) => {
                self.stage = unchanged;
                Err(OutOfTurn)
            },
        }
    }

    /// Moves on after `failure` struck while running with `held`.
    fn fail(&mut self, held: S, failure: Failure) -> (taken: LoopStep<S>)
        ensures
            (final(self).stage(), taken) == after_failure(held, failure),
    {
        if failure.is_fatal() {
            self.stage = Stage::Releasing(failure);
            LoopStep { report: None, command: LoopCommand::Unsubscribe(held) }
        } else {
            self.stage = Stage::Listening(held);
            LoopStep { report: Some(failure), command: LoopCommand::NextEvent }
        }
    }
}

/// Whether the loop, at `stage` and handed `input`, asks for a
/// reconciliation.
pub open spec fn asks_to_reconcile<S>(stage: Stage<S>, input: LoopInput) -> bool {
    match next_step(stage, input) {
        Some((_, taken)) => taken.command is Reconcile,
        None => false,
    }
}

/// Whether `input` is a notification that qualifies.
pub open spec fn brings_qualifying(input: LoopInput) -> bool {
    match input {
        LoopInput::Delivered(Ok(event)) => qualifies(event@),
        _ => false,
    }
}

/// The failure that `input` brings to a running loop, if it brings one. The
/// end of the stream is the loss of the bus.
pub open spec fn struck(input: LoopInput) -> Option<Failure> {
    match input {
        LoopInput::Delivered(Err(failure)) => Some(failure),
        LoopInput::Reconciled(Err(failure)) => Some(failure),
        LoopInput::Closed => Some(Failure::Disconnected),
        _ => None,
    }
}

/// A reconciliation is asked for exactly when the loop, listening, is
/// handed a notification that qualifies.
pub proof fn lemma_reconcile_iff_qualifying<S>(stage: Stage<S>, input: LoopInput)
    ensures
        asks_to_reconcile(stage, input) <==> stage is Listening && brings_qualifying(input),
{
}

/// While a reconciliation is under way the loop takes nothing but its
/// result, and then asks for the next notification or terminates: it never
/// asks for a second reconciliation before the first has ended.
pub proof fn lemma_one_reconciliation_at_a_time<S>(held: S, input: LoopInput)
    requires
        next_step(Stage::Reconciling(held), input) is Some,
    ensures
        input is Reconciled,
        !asks_to_reconcile(Stage::Reconciling(held), input),
{
}

/// A loop that runs terminates exactly on a fatal failure, the end of the
/// stream among them. A failure of one notification or of one
/// reconciliation is reported, and the loop asks for the next notification.
pub proof fn lemma_terminates_iff_fatal<S>(stage: Stage<S>, input: LoopInput)
    requires
        stage.state() == LoopState::Running,
        next_step(stage, input) is Some,
    ensures
        ({
            let (next, taken) = next_step(stage, input).unwrap();
            match struck(input) {
                Some(failure) => if failure.fatal() {
                    next.state() == LoopState::Terminated
                } else {
                    &&& next.state() == LoopState::Running
                    &&& taken.report == Some(failure)
                    &&& taken.command == LoopCommand::<S>::NextEvent
                },
                None => next.state() == LoopState::Running && taken.report is None,
            }
        }),
{
}

/// A loop that has terminated stays terminated.
pub proof fn lemma_terminated_for_good<S>(stage: Stage<S>, input: LoopInput)
    requires
        stage.state() == LoopState::Terminated,
    ensures
        next_step(stage, input) matches Some((next, _)) ==> next.state() == LoopState::Terminated,
{
}

/// The loop holds its subscription for as long as it runs, and hands it out
/// to be released exactly in the step that terminates it.
pub proof fn lemma_subscription_released_on_termination<S>(stage: Stage<S>, input: LoopInput)
    requires
        next_step(stage, input) is Some,
    ensures
        ({
            let (next, taken) = next_step(stage, input).unwrap();
            let leaves = stage.state() == LoopState::Running && next.state() == LoopState::Terminated;
            &&& next.state() == LoopState::Running ==> next.subscription() == stage.subscription()
            &&& leaves ==> stage.subscription() == Some(taken.command->Unsubscribe_0)
            &&& taken.command is Unsubscribe <==> leaves
        }),
{
}

/// Where the loop stands after it was handed `inputs` one after another
/// from `stage`, and the steps it took. An input out of turn changes
/// nothing and gives no step.
pub open spec fn run<S>(stage: Stage<S>, inputs: Seq<LoopInput>) -> (Stage<S>, Seq<LoopStep<S>>)
    decreases inputs.len(),
{
    if inputs.len() == 0 {
        (stage, Seq::empty())
    } else {
        let (reached, steps) = run(stage, inputs.drop_last());
        match next_step(reached, inputs.last()) {
            Some((next, taken)) => (next, steps.push(taken)),
            None => (reached, steps),
        }
    }
}

/// Over any inputs, a loop that starts out listening never asks for a
/// reconciliation while one is under way: a step that asks for one is
/// never followed at once by another that does. A reconciliation is under
/// way exactly when the last step asked for it.
pub proof fn lemma_reconciliations_never_overlap<S>(held: S, inputs: Seq<LoopInput>)
    ensures
        ({
            let (reached, steps) = run(Stage::Listening(held), inputs);
            &&& reached is Reconciling <==> steps.len() > 0 && steps.last().command is Reconcile
            &&& forall|k: int|
                0 <= k < steps.len() - 1 && #[trigger] steps[k].command is Reconcile ==> !(steps[k
                    + 1].command is Reconcile)
        }),
    decreases inputs.len(),
{
    if inputs.len() > 0 {
        lemma_reconciliations_never_overlap(held, inputs.drop_last());
    }
}

/// Over any inputs, a loop hands its subscription out at most once: in the
/// step that terminates it, and it is the subscription the loop was made
/// with. Until then the loop holds it.
pub proof fn lemma_subscription_released_once<S>(held: S, inputs: Seq<LoopInput>)
    ensures
        ({
            let (reached, steps) = run(Stage::Listening(held), inputs);
            &&& reached.state() == LoopState::Running ==> reached.subscription() == Some(held)
            &&& reached.state() == LoopState::Running <==> forall|k: int|
                0 <= k < steps.len() ==> !(#[trigger] steps[k].command is Unsubscribe)
            &&& forall|j: int, k: int|
                0 <= j < steps.len() && 0 <= k < steps.len() && #[trigger] steps[j].command is Unsubscribe
                    && #[trigger] steps[k].command is Unsubscribe ==> j == k
            &&& forall|k: int|
                0 <= k < steps.len() && #[trigger] steps[k].command is Unsubscribe ==> steps[k].command
                    == LoopCommand::Unsubscribe(held)
        }),
    decreases inputs.len(),
{
    if inputs.len() > 0 {
        lemma_subscription_released_once(held, inputs.drop_last());
        let (before, earlier) = run(Stage::Listening(held), inputs.drop_last());
        let steps = run(Stage::Listening(held), inputs).1;
        if let Some((next, _)) = next_step(before, inputs.last()) {
            if before.state() == LoopState::Running {
                if next.state() == LoopState::Terminated {
                    assert(steps[earlier.len() as int].command is Unsubscribe);
                }
            } else {
                let released: int = choose|k: int|
                    0 <= k < earlier.len() && #[trigger] earlier[k].command is Unsubscribe;
                assert(steps[released].command is Unsubscribe);
            }
        }
    }
}

/// The inputs of an agent that is delivered `events` in order and ends each
/// reconciliation it is asked for with `outcome` before it waits for the
/// next notification.
pub open spec fn served(events: Seq<BusEvent>, outcome: Result<(), Failure>) -> Seq<LoopInput>
    decreases events.len(),
{
    if events.len() == 0 {
        Seq::empty()
    } else {
        let earlier = served(events.drop_last(), outcome);
        let delivered = earlier.push(LoopInput::Delivered(Ok(events.last())));
        if qualifies(events.last()@) {
            delivered.push(LoopInput::Reconciled(outcome))
        } else {
            delivered
        }
    }
}

/// How many of `events` qualify.
pub open spec fn qualifying(events: Seq<BusEvent>) -> nat
    decreases events.len(),
{
    if events.len() == 0 {
        0
    } else if qualifies(events.last()@) {
        qualifying(events.drop_last()) + 1
    } else {
        qualifying(events.drop_last())
    }
}

/// How many of `steps` ask for a reconciliation.
pub open spec fn reconciliations<S>(steps: Seq<LoopStep<S>>) -> nat
    decreases steps.len(),
{
    if steps.len() == 0 {
        0
    } else if steps.last().command is Reconcile {
        reconciliations(steps.drop_last()) + 1
    } else {
        reconciliations(steps.drop_last())
    }
}

/// Over any stream of notifications, the loop asks for exactly one
/// reconciliation for each notification that qualifies and for none
/// besides, as long as no reconciliation ends in a fatal failure. After the
/// last one it is listening again, with its subscription.
pub proof fn lemma_one_reconciliation_per_qualifying_event<S>(
    held: S,
    events: Seq<BusEvent>,
    outcome: Result<(), Failure>,
)
    requires
        outcome matches Err(failure) ==> !failure.fatal(),
    ensures
        run(Stage::Listening(held), served(events, outcome)).0 == Stage::Listening(held),
        reconciliations(run(Stage::Listening(held), served(events, outcome)).1) == qualifying(events),
    decreases events.len(),
{
    if events.len() > 0 {
        lemma_one_reconciliation_per_qualifying_event(held, events.drop_last(), outcome);
        let start = Stage::Listening(held);
        let earlier = served(events.drop_last(), outcome);
        let notification = LoopInput::Delivered(Ok(events.last()));
        lemma_run_one_more(start, earlier, notification);
        let steps = run(start, earlier.push(notification)).1;
        lemma_count_one_more(run(start, earlier).1, steps.last());
        if qualifies(events.last()@) {
            let answer = LoopInput::Reconciled(outcome);
            lemma_run_one_more(start, earlier.push(notification), answer);
            lemma_count_one_more(steps, run(start, earlier.push(notification).push(answer)).1.last());
        }
    }
}

/// One more input takes the loop one move further, if it is in turn.
proof fn lemma_run_one_more<S>(stage: Stage<S>, inputs: Seq<LoopInput>, input: LoopInput)
    ensures
        run(stage, inputs.push(input)) == match next_step(run(stage, inputs).0, input) {
            Some((next, taken)) => (next, run(stage, inputs).1.push(taken)),
            None => run(stage, inputs),
        },
{
    assert(inputs.push(input).drop_last() == inputs);
}

/// One more step counts if it asks for a reconciliation.
proof fn lemma_count_one_more<S>(steps: Seq<LoopStep<S>>, taken: LoopStep<S>)
    ensures
        reconciliations(steps.push(taken)) == reconciliations(steps) + if taken.command is Reconcile {
            1nat
        } else {
            0nat
        },
{
    assert(steps.push(taken).drop_last() == steps);
}

/// The input that stands for what the stream yielded: the end of the
/// stream, or a message, which is read as a notification.
pub fn received(item: Option<&Message>) -> (input: LoopInput)
    ensures
        item is None ==> input == LoopInput::Closed,
        item is Some ==> input is Delivered,
        input matches LoopInput::Delivered(Err(failure)) ==> failure is Decode,
{
    match item {
        Some(message) => LoopInput::Delivered(decode(message)),
        None => LoopInput::Closed,
    }
}

} // verus!
