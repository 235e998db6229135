//! The loop runner: it invokes its task again and again, and the task's answer says how
//! long to wait before the next invocation.
//!
//! The runner decides; the actor that hosts it does what was decided. On start the
//! actor notifies itself with [`Looper::started`]. Each [`NextLoop`] message goes to
//! [`Looper::handle`], which answers with the [`LoopAction`] to perform. The reply of
//! an invocation goes to [`Looper::next_loop`], which gives the message to notify next.

use crate::graceful_stop::Release;
use crate::graceful_stop::StopRequest;
use crate::graceful_stop::SystemTerminator;
use std::sync::Arc;
use std::time::Duration;
use vstd::prelude::*;

verus! {

/// `actix::MailboxError`, the failure of a request to a task unit: its mailbox was
/// closed or the request timed out. Nothing is claimed of what it holds.
#[verifier::external_type_specification]
#[verifier::external_body]
pub struct ExMailboxError(actix::MailboxError);

/// The message by which a loop runner schedules its own next step. A running looper
/// is always scheduled, for an immediate invocation or for a delayed one, and the
/// message in flight says which.
#[derive(Clone, Copy, Debug, PartialEq, Eq)]
pub enum NextLoop {
    /// Invoke the task now.
    Immediately,
    /// Invoke the task once this much time has passed.
    Later(Duration),
}

impl actix::Message for NextLoop {
    type Result = ();
}

/// The request that a loop runner sends to its task. The answer is the delay before
/// the next request, or `None` to be asked again at once.
#[derive(Clone, Copy, Debug, PartialEq, Eq)]
pub struct Task;

impl actix::Message for Task {
    type Result = Option<Duration>;
}

/// What the hosting actor does after a [`NextLoop`] message.
#[derive(Clone, Copy, Debug, PartialEq, Eq)]
pub enum LoopAction {
    /// Send [`Task`] to the task unit and hand its reply to [`Looper::next_loop`].
    Invoke,
    /// Set a timer of this length that delivers [`NextLoop::Immediately`].
    Wait(Duration),
    /// Do nothing: the runner has stopped.
    Nothing,
}

/// What a loop runner is made of, as contracts see it.
pub struct LooperView<T> {
    /// The handle of the task unit.
    pub task: T,
    /// The termination token that the runner holds a reference to.
    pub system_terminator: Arc<SystemTerminator>,
    /// A stop request has been handled: nothing is scheduled any more.
    pub stopping: bool,
    /// The reference to the termination token has been given back.
    pub released: bool,
}

/// The message with which a runner opens its cycle: none once it is stopping.
pub open spec fn spec_started(stopping: bool) -> Option<NextLoop> {
    if stopping {
        None
    } else {
        Some(NextLoop::Immediately)
    }
}

/// The action that a scheduling message asks for: a delay is waited out, an immediate
/// step invokes the task, and a runner that is stopping does neither.
pub open spec fn spec_handle(stopping: bool, msg: NextLoop) -> LoopAction {
    if stopping {
        LoopAction::Nothing
    } else {
        match msg {
            NextLoop::Later(duration) => LoopAction::Wait(duration),
            NextLoop::Immediately => LoopAction::Invoke,
        }
    }
}

/// The message that follows a reply: the delay that the task asked for, or an
/// immediate step where it asked for none or could not be reached. A runner that is
/// stopping schedules nothing.
pub open spec fn spec_next_loop(
    stopping: bool,
    reply: Result<Option<Duration>, actix::MailboxError>,
) -> Option<NextLoop> {
    if stopping {
        None
    } else {
        match reply {
            Ok(Some(duration)) => Some(NextLoop::Later(duration)),
            _ => Some(NextLoop::Immediately),
        }
    }
}

/// The loop runner: its task and its reference to the termination token.
pub struct Looper<T> {
    task: T,
    system_terminator: Arc<SystemTerminator>,
    stopping: bool,
    released: bool,
}

impl<T> View for Looper<T> {
    type V = LooperView<T>;

    closed spec fn view(&self) -> LooperView<T> {
        LooperView {
            task: self.task,
            system_terminator: self.system_terminator,
            stopping: self.stopping,
            released: self.released,
        }
    }
}

impl<T> Looper<T> {
    /// A runner for `task` that holds `system_terminator`, a reference that was
    /// acquired for it. It schedules nothing until it is started.
    pub fn new(task: T, system_terminator: Arc<SystemTerminator>) -> (looper: Self)
        ensures
            looper@ == (LooperView { task, system_terminator, stopping: false, released: false }),
    {
        Self { task, system_terminator, stopping: false, released: false }
    }

    /// The handle of the task unit.
    pub fn task(&self) -> (task: &T)
        ensures
            *task == self@.task,
    {
        &self.task
    }

    /// Whether a stop request has been handled.
    pub fn is_stopping(&self) -> (stopping: bool)
        ensures
            stopping == self@.stopping,
    {
        self.stopping
    }

    /// The message to notify when the hosting actor has started: an immediate
    /// invocation.
    pub fn started(&self) -> (first: Option<NextLoop>)
        ensures
            first == spec_started(self@.stopping),
    {
        if self.stopping {
            None
        } else {
            Some(NextLoop::Immediately)
        }
    }

    /// Decides what a scheduling message leads to.
    pub fn handle(&self, msg: NextLoop) -> (action: LoopAction)
        ensures
            action == spec_handle(self@.stopping, msg),
    {
        if self.stopping {
            return LoopAction::Nothing;
        }
        match msg {
            NextLoop::Later(duration) => LoopAction::Wait(duration),
            NextLoop::Immediately => LoopAction::Invoke,
        }
    }

    /// Decides the message to notify after the reply to an invocation.
    pub fn next_loop(&self, reply: Result<Option<Duration>, actix::MailboxError>) -> (next: Option<
        NextLoop,
    >)
        ensures
            next == spec_next_loop(self@.stopping, reply),
    {
        if self.stopping {
            return None;
        }
        match reply {
            Ok(Some(duration)) => Some(NextLoop::Later(duration)),
            _ => Some(NextLoop::Immediately),
        }
    }

    /// Takes a stop request: from now on the runner schedules nothing and invokes
    /// nothing. The hosting actor stops its context, which cancels a pending timer.
    pub fn stop(&mut self, _msg: StopRequest)
        ensures
            final(self)@ == (LooperView { stopping: true, ..old(self)@ }),
    {
        self.stopping = true;
    }

    /// Called when the hosting actor has stopped: gives the reference to the
    /// termination token back, once. Returns what that release found and did, or
    /// `None` where the reference had been given back before.
    pub fn stopped(&mut self) -> (release: Option<Release>)
        ensures
            final(self)@ == (LooperView { stopping: true, released: true, ..old(self)@ }),
            release.is_some() == !old(self)@.released,
            release matches Some(r) ==> r.fired == crate::graceful_stop::fired_action(
                r.before,
                old(self)@.system_terminator.is_routed(),
            ),
    {
        self.stopping = true;
        if self.released {
            None
        } else {
            self.released = true;
            Some(self.system_terminator.release())
        }
    }
}

/// The reply carries a delay.
pub open spec fn carries_delay(reply: Result<Option<Duration>, actix::MailboxError>) -> bool {
    reply matches Ok(Some(_))
}

/// The actions of a running looper from one reply to the next invocation: the action
/// for the message that follows the reply and, where that is a wait, the action for
/// the immediate step that the timer delivers.
pub open spec fn cycle(reply: Result<Option<Duration>, actix::MailboxError>) -> Seq<LoopAction> {
    let first = spec_handle(false, spec_next_loop(false, reply).unwrap());
    match first {
        LoopAction::Wait(_) => seq![first, spec_handle(false, NextLoop::Immediately)],
        _ => seq![first],
    }
}

/// The actions of a looper from its start, while the task answers its invocations
/// with `replies` in order and no stop request comes in.
pub open spec fn actions(replies: Seq<Result<Option<Duration>, actix::MailboxError>>) -> Seq<
    LoopAction,
>
    decreases replies.len(),
{
    if replies.len() == 0 {
        seq![spec_handle(false, spec_started(false).unwrap())]
    } else {
        actions(replies.drop_last()) + cycle(replies.last())
    }
}

/// The least time that passes between a reply and the next invocation, where `length`
/// measures durations: that of the timer that the looper sets, if it sets one.
pub open spec fn wait_after(
    reply: Result<Option<Duration>, actix::MailboxError>,
    length: spec_fn(Duration) -> nat,
) -> nat {
    match spec_handle(false, spec_next_loop(false, reply).unwrap()) {
        LoopAction::Wait(duration) => length(duration),
        _ => 0,
    }
}

/// A timed run of a looper that agrees with its decisions. The task answers the
/// invocation made at `invoked[k]` with `replies[k]` at `replied[k]`, and the next
/// invocation comes no sooner than the looper's timer allows: a timer of `d` takes
/// at least `length(d)` to expire.
pub open spec fn timed_run(
    replies: Seq<Result<Option<Duration>, actix::MailboxError>>,
    invoked: Seq<nat>,
    replied: Seq<nat>,
    length: spec_fn(Duration) -> nat,
) -> bool {
    &&& invoked.len() == replies.len() + 1
    &&& replied.len() == replies.len()
    &&& forall|k: int|
        0 <= k < replies.len() ==> {
            &&& invoked[k] <= #[trigger] replied[k]
            &&& replied[k] + wait_after(replies[k], length) <= invoked[k + 1]
        }
}

/// A looper whose task always answers with the delay `duration` waits that delay out
/// before every further invocation: its actions alternate between an invocation and
/// a timer of exactly `duration`.
pub proof fn lemma_delayed_loop_actions(
    replies: Seq<Result<Option<Duration>, actix::MailboxError>>,
    duration: Duration,
)
    requires
        forall|k: int| 0 <= k < replies.len() ==> replies[k] == Ok::<
            Option<Duration>,
            actix::MailboxError,
        >(Some(duration)),
    ensures
        actions(replies).len() == 2 * replies.len() + 1,
        forall|i: int|
            0 <= i <= replies.len() ==> #[trigger] actions(replies)[2 * i] == LoopAction::Invoke,
        forall|i: int|
            0 <= i < replies.len() ==> #[trigger] actions(replies)[2 * i + 1] == LoopAction::Wait(
                duration,
            ),
    decreases replies.len(),
{
    if replies.len() > 0 {
        let earlier = replies.drop_last();
        lemma_delayed_loop_actions(earlier, duration);
        assert(replies.last() == replies[replies.len() - 1]);
        assert(cycle(replies.last()) == seq![LoopAction::Wait(duration), LoopAction::Invoke]);
        let all = actions(replies);
        assert(all == actions(earlier) + cycle(replies.last()));
        assert forall|i: int| 0 <= i <= replies.len() implies #[trigger] all[2 * i]
            == LoopAction::Invoke by {
            if i < replies.len() {
                assert(all[2 * i] == actions(earlier)[2 * i]);
            }
        }
        assert forall|i: int| 0 <= i < replies.len() implies #[trigger] all[2 * i + 1]
            == LoopAction::Wait(duration) by {
            if i < replies.len() - 1 {
                assert(all[2 * i + 1] == actions(earlier)[2 * i + 1]);
            }
        }
    }
}

/// A looper whose task always answers with the delay `duration` is invoked at
/// intervals of at least that delay, never sooner: in every timed run that agrees
/// with its decisions, two invocations in a row lie at least `length(duration)` apart.
pub proof fn lemma_delayed_loop_spacing(
    replies: Seq<Result<Option<Duration>, actix::MailboxError>>,
    invoked: Seq<nat>,
    replied: Seq<nat>,
    length: spec_fn(Duration) -> nat,
    duration: Duration,
)
    requires
        timed_run(replies, invoked, replied, length),
        forall|k: int| 0 <= k < replies.len() ==> replies[k] == Ok::<
            Option<Duration>,
            actix::MailboxError,
        >(Some(duration)),
    ensures
        forall|k: int|
            0 <= k < replies.len() ==> invoked[k] + length(duration) <= #[trigger] invoked[k + 1],
{
    assert forall|k: int| 0 <= k < replies.len() implies invoked[k] + length(duration)
        <= #[trigger] invoked[k + 1] by {
        assert(invoked[k] <= replied[k]);
        assert(wait_after(replies[k], length) == length(duration));
    }
}

/// A looper whose task never answers with a delay is invoked back to back: every
/// action is an invocation, and no timer is ever set.
pub proof fn lemma_busy_loop_actions(replies: Seq<Result<Option<Duration>, actix::MailboxError>>)
    requires
        forall|k: int| 0 <= k < replies.len() ==> !carries_delay(#[trigger] replies[k]),
    ensures
        actions(replies).len() == replies.len() + 1,
        forall|i: int|
            0 <= i <= replies.len() ==> #[trigger] actions(replies)[i] == LoopAction::Invoke,
    decreases replies.len(),
{
    if replies.len() > 0 {
        let earlier = replies.drop_last();
        assert forall|k: int| 0 <= k < earlier.len() implies !carries_delay(
            #[trigger] earlier[k],
        ) by {
            assert(earlier[k] == replies[k]);
        }
        lemma_busy_loop_actions(earlier);
        assert(!carries_delay(replies[replies.len() - 1]));
        assert(cycle(replies.last()) == seq![LoopAction::Invoke]);
    }
}

/// A looper whose task never answers with a delay injects no wait: the least time
/// between a reply and the next invocation is zero, so a run in which every reply is
/// followed by the next invocation at the same instant agrees with its decisions.
pub proof fn lemma_busy_loop_injects_no_wait(
    replies: Seq<Result<Option<Duration>, actix::MailboxError>>,
    invoked: Seq<nat>,
    replied: Seq<nat>,
    length: spec_fn(Duration) -> nat,
)
    requires
        forall|k: int| 0 <= k < replies.len() ==> !carries_delay(#[trigger] replies[k]),
        invoked.len() == replies.len() + 1,
        replied.len() == replies.len(),
        forall|k: int|
            0 <= k < replies.len() ==> invoked[k] <= #[trigger] replied[k] && replied[k]
                == invoked[k + 1],
    ensures
        forall|k: int| 0 <= k < replies.len() ==> wait_after(#[trigger] replies[k], length) == 0,
        timed_run(replies, invoked, replied, length),
{
    assert forall|k: int| 0 <= k < replies.len() implies wait_after(
        #[trigger] replies[k],
        length,
    ) == 0 by {
        assert(!carries_delay(replies[k]));
    }
    assert forall|k: int| 0 <= k < replies.len() implies {
        &&& invoked[k] <= #[trigger] replied[k]
        &&& replied[k] + wait_after(replies[k], length) <= invoked[k + 1]
    } by {
        assert(wait_after(replies[k], length) == 0);
    }
}

/// Once a stop request has been handled the looper schedules nothing and invokes its
/// task no more, whatever message or reply still reaches it.
pub proof fn lemma_stopping_looper_is_silent(
    msg: NextLoop,
    reply: Result<Option<Duration>, actix::MailboxError>,
)
    ensures
        spec_started(true) == None::<NextLoop>,
        spec_handle(true, msg) == LoopAction::Nothing,
        spec_next_loop(true, reply) == None::<NextLoop>,
{
}

} // verus!
