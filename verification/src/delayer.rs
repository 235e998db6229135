//! The delay runner: it hands its task a piece of work together with a way to call
//! back, and the task calls back to say when it wants the next one.
//!
//! The runner decides; the actor that hosts it does what was decided. On start the
//! actor notifies itself with [`Delayer::started`]. Each [`Timing`] message, its own
//! or one that the task sent back, goes to [`Delayer::handle`], which answers with
//! the [`DelayAction`] to perform. The outcome of a delivery goes to
//! [`Delayer::delivered`], which gives the message to notify next, if any.

use crate::graceful_stop::Release;
use crate::graceful_stop::StopRequest;
use crate::graceful_stop::SystemTerminator;
use std::sync::Arc;
use std::time::Duration;
use vstd::prelude::*;

verus! {

/// `actix::prelude::SendError`, the failure of a delivery to a mailbox: it was full
/// or closed. It holds the message that was not taken. Nothing is claimed of it.
#[verifier::external_type_specification]
#[verifier::external_body]
#[verifier::reject_recursive_types(T)]
pub struct ExSendError<T>(actix::prelude::SendError<T>);

/// When a delay runner delivers its next piece of work. The runner sends it to
/// itself, and the task sends `Later` back to ask for the next delivery.
#[derive(Clone, Copy, Debug, PartialEq, Eq)]
pub enum Timing {
    /// Deliver now.
    Immediately,
    /// Deliver once this much time has passed.
    Later(Duration),
}

impl actix::Message for Timing {
    type Result = ();
}

/// The piece of work that a delay runner hands to its task. It carries the address
/// of the runner, to which the task sends [`Timing::Later`] when it is done.
#[derive(Debug)]
pub struct Task<A>(pub A);

impl<A: 'static> actix::Message for Task<A> {
    type Result = ();
}

/// What the hosting actor does after a [`Timing`] message.
#[derive(Clone, Copy, Debug, PartialEq, Eq)]
pub enum DelayAction {
    /// Send [`Task`] with the actor's own address to the task unit, without waiting
    /// for an answer, and hand the outcome to [`Delayer::delivered`].
    Deliver,
    /// Set a timer of this length that delivers [`Timing::Immediately`].
    Wait(Duration),
    /// Do nothing: the runner has stopped.
    Nothing,
}

/// What a delay runner is made of, as contracts see it.
pub struct DelayerView<T> {
    /// The handle of the task unit.
    pub task: T,
    /// The termination token that the runner holds a reference to.
    pub system_terminator: Arc<SystemTerminator>,
    /// How long the runner waits before it tries a failed delivery again.
    pub error_duration: Duration,
    /// A stop request has been handled: nothing is scheduled any more.
    pub stopping: bool,
    /// The reference to the termination token has been given back.
    pub released: bool,
}

/// The message with which a runner opens: none once it is stopping.
pub open spec fn spec_started(stopping: bool) -> Option<Timing> {
    if stopping {
        None
    } else {
        Some(Timing::Immediately)
    }
}

/// The action that a timing message asks for: a delay is waited out, an immediate
/// step delivers work, and a runner that is stopping does neither.
pub open spec fn spec_handle(stopping: bool, msg: Timing) -> DelayAction {
    if stopping {
        DelayAction::Nothing
    } else {
        match msg {
            Timing::Later(duration) => DelayAction::Wait(duration),
            Timing::Immediately => DelayAction::Deliver,
        }
    }
}

/// The message that follows a delivery. After a delivery that the mailbox took the
/// runner schedules nothing: the next step is the task's to ask for. After one that
/// failed it tries again when `error_duration` has passed. A runner that is stopping
/// schedules nothing.
pub open spec fn spec_delivered<M>(
    stopping: bool,
    error_duration: Duration,
    outcome: Result<(), actix::prelude::SendError<M>>,
) -> Option<Timing> {
    if stopping {
        None
    } else {
        match outcome {
            Ok(_) => None,
            Err(_) => Some(Timing::Later(error_duration)),
        }
    }
}

/// The delay runner: its task, its reference to the termination token, and the
/// backoff after a delivery that failed.
pub struct Delayer<T> {
    task: T,
    system_terminator: Arc<SystemTerminator>,
    error_duration: Duration,
    stopping: bool,
    released: bool,
}

impl<T> View for Delayer<T> {
    type V = DelayerView<T>;

    closed spec fn view(&self) -> DelayerView<T> {
        DelayerView {
            task: self.task,
            system_terminator: self.system_terminator,
            error_duration: self.error_duration,
            stopping: self.stopping,
            released: self.released,
        }
    }
}

impl<T> Delayer<T> {
    /// A runner for `task` that holds `system_terminator`, a reference that was
    /// acquired for it, and tries a failed delivery again after `error_duration`.
    pub fn new(
        task: T,
        system_terminator: Arc<SystemTerminator>,
        error_duration: Duration,
    ) -> (delayer: Self)
        ensures
            delayer@ == (DelayerView {
                task,
                system_terminator,
                error_duration,
                stopping: false,
                released: false,
            }),
    {
        Self { task, system_terminator, error_duration, stopping: false, released: false }
    }

    /// The handle of the task unit.
    pub fn task(&self) -> (task: &T)
        ensures
            *task == self@.task,
    {
        &self.task
    }

    /// Whether a stop request has been handled.
    pub fn is_stopping(&self) -> (stopping: bool)
        ensures
            stopping == self@.stopping,
    {
        self.stopping
    }

    /// The message to notify when the hosting actor has started: an immediate
    /// delivery.
    pub fn started(&self) -> (first: Option<Timing>)
        ensures
            first == spec_started(self@.stopping),
    {
        if self.stopping {
            None
        } else {
            Some(Timing::Immediately)
        }
    }

    /// Decides what a timing message leads to.
    pub fn handle(&self, msg: Timing) -> (action: DelayAction)
        ensures
            action == spec_handle(self@.stopping, msg),
    {
        if self.stopping {
            return DelayAction::Nothing;
        }
        match msg {
            Timing::Later(duration) => DelayAction::Wait(duration),
            Timing::Immediately => DelayAction::Deliver,
        }
    }

    /// Decides the message to notify after a delivery, from its outcome.
    pub fn delivered<M>(&self, outcome: Result<(), actix::prelude::SendError<M>>) -> (next: Option<
        Timing,
    >)
        ensures
            next == spec_delivered(self@.stopping, self@.error_duration, outcome),
    {
        if self.stopping {
            return None;
        }
        match outcome {
            Ok(_) => None,
            Err(_) => Some(Timing::Later(self.error_duration)),
        }
    }

    /// Takes a stop request: from now on the runner schedules nothing and delivers
    /// nothing. The hosting actor stops its context, which cancels a pending timer.
    pub fn stop(&mut self, _msg: StopRequest)
        ensures
            final(self)@ == (DelayerView { stopping: true, ..old(self)@ }),
    {
        self.stopping = true;
    }

    /// Called when the hosting actor has stopped: gives the reference to the
    /// termination token back, once. Returns what that release found and did, or
    /// `None` where the reference had been given back before.
    pub fn stopped(&mut self) -> (release: Option<Release>)
        ensures
            final(self)@ == (DelayerView { stopping: true, released: true, ..old(self)@ }),
            release.is_some() == !old(self)@.released,
            release matches Some(r) ==> r.fired == crate::graceful_stop::fired_action(
                r.before,
                old(self)@.system_terminator.is_routed(),
            ),
    {
        self.stopping = true;
        if self.released {
            None
        } else {
            self.released = true;
            Some(self.system_terminator.release())
        }
    }
}

/// The actions of a running delayer from its start while the task never calls back,
/// where its deliveries end with `outcomes` in order: each delivery, and after a
/// failed one the wait before the next. The run ends with the first delivery that the
/// mailbox takes, or with the delivery whose outcome is not among `outcomes`.
pub open spec fn own_actions<M>(
    error_duration: Duration,
    outcomes: Seq<Result<(), actix::prelude::SendError<M>>>,
) -> Seq<DelayAction>
    decreases outcomes.len(),
{
    let deliver = spec_handle(false, spec_started(false).unwrap());
    if outcomes.len() == 0 {
        seq![deliver]
    } else {
        match spec_delivered(false, error_duration, outcomes[0]) {
            None => seq![deliver],
            Some(retry) => seq![deliver, spec_handle(false, retry)] + own_actions(
                error_duration,
                outcomes.skip(1),
            ),
        }
    }
}

/// How many deliveries there are among `actions`.
pub open spec fn deliveries(actions: Seq<DelayAction>) -> nat
    decreases actions.len(),
{
    if actions.len() == 0 {
        0
    } else {
        deliveries(actions.drop_last()) + if actions.last() == DelayAction::Deliver {
            1nat
        } else {
            0nat
        }
    }
}

/// A delayer whose first delivery is taken, and whose task never calls back, makes
/// that one delivery and nothing else: it sets no timer and delivers no second time,
/// whatever would have become of further deliveries.
pub proof fn lemma_single_delivery<M>(
    error_duration: Duration,
    outcomes: Seq<Result<(), actix::prelude::SendError<M>>>,
)
    requires
        outcomes.len() > 0,
        outcomes[0] is Ok,
    ensures
        own_actions(error_duration, outcomes) == seq![DelayAction::Deliver],
        deliveries(own_actions(error_duration, outcomes)) == 1,
        spec_delivered(false, error_duration, outcomes[0]) == None::<Timing>,
{
    let actions = own_actions(error_duration, outcomes);
    assert(actions == seq![DelayAction::Deliver]);
    assert(actions.drop_last() == Seq::<DelayAction>::empty());
    assert(deliveries(actions.drop_last()) == 0);
}

/// A delayer whose first `failed` deliveries fail and whose next one is taken, and
/// whose task never calls back, tries again after its fixed backoff each time and
/// stops at the delivery that is taken: its actions alternate between a delivery and
/// a timer of exactly `error_duration`, and end with the delivery number
/// `failed + 1`.
pub proof fn lemma_retries_until_delivered<M>(
    error_duration: Duration,
    outcomes: Seq<Result<(), actix::prelude::SendError<M>>>,
    failed: nat,
)
    requires
        failed < outcomes.len(),
        forall|k: int| 0 <= k < failed ==> #[trigger] outcomes[k] is Err,
        outcomes[failed as int] is Ok,
    ensures
        own_actions(error_duration, outcomes).len() == 2 * failed + 1,
        forall|i: int|
            0 <= i <= failed ==> #[trigger] own_actions(error_duration, outcomes)[2 * i]
                == DelayAction::Deliver,
        forall|i: int|
            0 <= i < failed ==> #[trigger] own_actions(error_duration, outcomes)[2 * i + 1]
                == DelayAction::Wait(error_duration),
    decreases failed,
{
    if failed > 0 {
        let rest = outcomes.skip(1);
        assert(outcomes[0] is Err);
        assert forall|k: int| 0 <= k < failed - 1 implies #[trigger] rest[k] is Err by {
            assert(rest[k] == outcomes[k + 1]);
        }
        assert(rest[failed - 1] == outcomes[failed as int]);
        lemma_retries_until_delivered(error_duration, rest, (failed - 1) as nat);
        let head = seq![DelayAction::Deliver, DelayAction::Wait(error_duration)];
        let all = own_actions(error_duration, outcomes);
        assert(all == head + own_actions(error_duration, rest));
        assert forall|i: int| 0 <= i <= failed implies #[trigger] all[2 * i]
            == DelayAction::Deliver by {
            if i > 0 {
                assert(all[2 * i] == own_actions(error_duration, rest)[2 * (i - 1)]);
            }
        }
        assert forall|i: int| 0 <= i < failed implies #[trigger] all[2 * i + 1]
            == DelayAction::Wait(error_duration) by {
            if i > 0 {
                assert(all[2 * i + 1] == own_actions(error_duration, rest)[2 * (i - 1) + 1]);
            }
        }
    }
}

/// Once a stop request has been handled the delayer schedules nothing and delivers
/// nothing, whatever message or outcome still reaches it.
pub proof fn lemma_stopping_delayer_is_silent<M>(
    msg: Timing,
    error_duration: Duration,
    outcome: Result<(), actix::prelude::SendError<M>>,
)
    ensures
        spec_started(true) == None::<Timing>,
        spec_handle(true, msg) == DelayAction::Nothing,
        spec_delivered(true, error_duration, outcome) == None::<Timing>,
{
}

} // verus!
