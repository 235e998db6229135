//! The graceful stop of a daemon: the coordinator that tells every runner to stop, and
//! the termination token that ends the process once all of them have.

use crate::delayer::Delayer;
use crate::delayer::DelayerView;
use crate::ledger::Ledger;
use std::sync::mpsc::Sender;
use std::sync::Arc;
use std::time::Duration;
use vstd::prelude::*;
use vstd::rwlock::RwLock;
use vstd::rwlock::RwLockPredicate;

verus! {

/// `std::sync::mpsc::Sender`, the sending half of the completion channel. Nothing is
/// claimed of what it holds.
#[verifier::external_type_specification]
#[verifier::external_body]
#[verifier::reject_recursive_types(T)]
pub struct ExSender<T>(Sender<T>);

/// `actix::System`, a handle to the runtime that hosts the actors. Nothing is claimed
/// of what it holds.
#[verifier::external_type_specification]
#[verifier::external_body]
pub struct ExSystem(actix::System);

/// `System::try_current` hands out the system registered on the calling thread, or
/// `None` where there is none. Which of the two depends on the thread, so nothing is
/// claimed of the result.
pub assume_specification[ actix::System::try_current ]() -> (current: Option<actix::System>);

/// `System::stop` asks the system to shut down with exit code 0. It returns nothing
/// and nothing is claimed of it.
pub assume_specification[ actix::System::stop ](system: &actix::System);

/// `Sender::send` on the completion channel, with the unit value. It never blocks and
/// fails only where the receiver is gone; the result says whether the value was
/// taken, which depends on the other end, so nothing is claimed of it.
#[verifier::external_body]
fn notify_completion(sender: &Sender<()>) -> (delivered: bool) {
    sender.send(()).is_ok()
}

/// The message that tells a runner to cancel what it has pending and to stop.
#[derive(Clone, Copy, Debug, PartialEq, Eq, Structural)]
pub struct StopRequest;

impl actix::Message for StopRequest {
    type Result = ();
}

/// The trigger of a shutdown. It says nothing of where it came from: an operating
/// system signal and a stop asked for inside the process are handled alike.
#[derive(Clone, Copy, Debug, PartialEq, Eq, Structural)]
pub struct StopEvent;

impl actix::Message for StopEvent {
    type Result = ();
}

/// What runs when the last reference to a termination token is given back.
#[derive(Clone, Copy, Debug, PartialEq, Eq, Structural)]
pub enum TerminationAction {
    /// One notification is sent on the completion channel; its owner ends the process.
    NotifyChannel,
    /// The hosting system is stopped directly.
    StopSystem,
}

/// What one release of a termination token found and did.
#[derive(Clone, Copy, Debug, PartialEq, Eq, Structural)]
pub struct Release {
    /// The ledger as this release found it.
    pub before: Ledger,
    /// The termination action, where this release ran it.
    pub fired: Option<TerminationAction>,
}

/// The action that a release runs which finds the ledger as `before`, on a token that
/// is routed through a completion channel or not.
pub open spec fn fired_action(before: Ledger, routed: bool) -> Option<TerminationAction> {
    if before.release_fires() {
        if routed {
            Some(TerminationAction::NotifyChannel)
        } else {
            Some(TerminationAction::StopSystem)
        }
    } else {
        None
    }
}

/// The lock around the shared ledger admits any count.
struct AnyLedger;

impl RwLockPredicate<Ledger> for AnyLedger {
    closed spec fn inv(self, _ledger: Ledger) -> bool {
        true
    }
}

/// The termination token: shared by the coordinator and every runner, it ends the
/// process when the last of them has given its reference back, and not before.
pub struct SystemTerminator {
    ledger: RwLock<Ledger, AnyLedger>,
    sender: Option<Sender<()>>,
}

impl SystemTerminator {
    /// The completion channel that the termination action is routed through, if any.
    pub closed spec fn completion_channel(&self) -> Option<Sender<()>> {
        self.sender
    }

    /// The termination action notifies a completion channel instead of stopping the
    /// system.
    pub open spec fn is_routed(&self) -> bool {
        self.completion_channel().is_some()
    }

    /// The action that this token runs when its last reference is given back.
    pub open spec fn action(&self) -> TerminationAction {
        if self.is_routed() {
            TerminationAction::NotifyChannel
        } else {
            TerminationAction::StopSystem
        }
    }

    /// A token with one live reference, held by the caller. With a `sender` the
    /// termination action is one notification on that channel; without, it stops the
    /// system of the thread that gives the last reference back.
    pub fn new(sender: Option<Sender<()>>) -> (token: Arc<SystemTerminator>)
        ensures
            token.completion_channel() == sender,
    {
        let ledger = RwLock::new(Ledger::new(), Ghost(AnyLedger));
        Arc::new(SystemTerminator { ledger, sender })
    }

    /// A reference for one more holder, counted in the shared ledger. It is a
    /// reference to the same token.
    pub fn acquire(this: &Arc<SystemTerminator>) -> (token: Arc<SystemTerminator>)
        ensures
            token == *this,
    {
        let (mut ledger, handle) = this.ledger.acquire_write();
        let _ = ledger.acquire();
        handle.release_write(ledger);
        Arc::clone(this)
    }

    /// Runs the termination action of this token and says which one it was.
    fn fire(&self) -> (action: TerminationAction)
        ensures
            action == self.action(),
    {
        match &self.sender {
            Some(sender) => {
                let _ = notify_completion(sender);
                TerminationAction::NotifyChannel
            },
            None => {
                match actix::System::try_current() {
                    Some(system) => {
                        system.stop();
                    },
                    None => {},
                }
                TerminationAction::StopSystem
            },
        }
    }

    /// Gives one reference back. The release that finds exactly one live reference
    /// runs the termination action; every other release runs nothing. The report
    /// holds the ledger as it was found, which depends on what the other holders have
    /// done so far.
    pub fn release(&self) -> (release: Release)
        ensures
            release.fired == fired_action(release.before, self.is_routed()),
    {
        let (mut ledger, handle) = self.ledger.acquire_write();
        let before = ledger;
        let last = ledger.release();
        handle.release_write(ledger);
        let fired = if last {
            Some(self.fire())
        } else {
            None
        };
        Release { before, fired }
    }
}

/// A signal of the operating system that asks the daemon to end.
#[derive(Clone, Copy, Debug, PartialEq, Eq, Structural)]
pub enum TerminationSignal {
    /// The controlling terminal went away.
    Hangup,
    /// An interrupt from the keyboard.
    Interrupt,
    /// A quit from the keyboard.
    Quit,
    /// A request to terminate.
    Terminate,
}

/// The signals that a coordinator listens for, each of which triggers the shutdown.
pub open spec fn termination_signals() -> Seq<TerminationSignal> {
    seq![
        TerminationSignal::Hangup,
        TerminationSignal::Interrupt,
        TerminationSignal::Quit,
        TerminationSignal::Terminate,
    ]
}

/// What a shutdown trigger does to a list of subscribers: the list that is left, and
/// the subscribers that a stop request goes to, in the order in which to send. Every
/// subscriber is taken off the list and gets one request.
pub open spec fn spec_handle<R>(recipients: Seq<R>) -> (Seq<R>, Seq<R>) {
    (Seq::empty(), recipients)
}

/// The list of subscribers after `recipients` have been subscribed to an empty
/// coordinator one by one.
pub open spec fn subscribed<R>(recipients: Seq<R>) -> Seq<R>
    decreases recipients.len(),
{
    if recipients.len() == 0 {
        Seq::empty()
    } else {
        subscribed(recipients.drop_last()).push(recipients.last())
    }
}

/// `start` can have made `recipient` of a fresh delayer that looks like `delayer`.
pub open spec fn started_as<T, R, F: Fn(Delayer<T>) -> R>(
    start: F,
    delayer: DelayerView<T>,
    recipient: R,
) -> bool {
    exists|started: Delayer<T>| started@ == delayer && #[trigger] call_ensures(
        start,
        (started,),
        recipient,
    )
}

/// What a coordinator is made of, as contracts see it.
pub struct GracefulStopView<R> {
    /// The subscribers, in the order in which they were subscribed.
    pub recipients: Seq<R>,
    /// The termination token that the coordinator created.
    pub system_terminator: Arc<SystemTerminator>,
    /// The coordinator's own reference to the token has been given back.
    pub released: bool,
}

/// The coordinator of a graceful stop: it keeps the runners to notify and, on a
/// shutdown trigger, has each of them sent one stop request.
pub struct GracefulStop<R> {
    stop_request_recipients: Vec<R>,
    system_terminator: Arc<SystemTerminator>,
    released: bool,
}

impl<R> View for GracefulStop<R> {
    type V = GracefulStopView<R>;

    closed spec fn view(&self) -> GracefulStopView<R> {
        GracefulStopView {
            recipients: self.stop_request_recipients@,
            system_terminator: self.system_terminator,
            released: self.released,
        }
    }
}

impl<R> GracefulStop<R> {
    /// A coordinator without subscribers whose termination action stops the system.
    pub fn new() -> (graceful_stop: Self)
        ensures
            graceful_stop@.recipients == Seq::<R>::empty(),
            !graceful_stop@.released,
            graceful_stop@.system_terminator.completion_channel() == None::<Sender<()>>,
    {
        GracefulStop {
            stop_request_recipients: Vec::new(),
            system_terminator: SystemTerminator::new(None),
            released: false,
        }
    }

    /// A coordinator without subscribers whose termination action sends one
    /// notification through `sender` and leaves it to the receiver to end the process.
    pub fn new_with_sender(sender: Sender<()>) -> (graceful_stop: Self)
        ensures
            graceful_stop@.recipients == Seq::<R>::empty(),
            !graceful_stop@.released,
            graceful_stop@.system_terminator.completion_channel() == Some(sender),
    {
        GracefulStop {
            stop_request_recipients: Vec::new(),
            system_terminator: SystemTerminator::new(Some(sender)),
            released: false,
        }
    }

    /// Adds `recipient` behind the subscribers there are, and hands the coordinator
    /// back so that subscriptions can be chained.
    pub fn subscribe(self, recipient: R) -> (graceful_stop: Self)
        ensures
            graceful_stop@ == (GracefulStopView {
                recipients: self@.recipients.push(recipient),
                ..self@
            }),
    {
        let mut graceful_stop = self;
        graceful_stop.stop_request_recipients.push(recipient);
        graceful_stop
    }

    /// A reference to the termination token for a runner, counted in its ledger.
    pub fn clone_system_terminator(&self) -> (token: Arc<SystemTerminator>)
        ensures
            token == self@.system_terminator,
    {
        SystemTerminator::acquire(&self.system_terminator)
    }

    /// Adds `recipient` behind the subscribers there are.
    pub fn subscribe_ref(&mut self, recipient: R)
        ensures
            final(self)@ == (GracefulStopView {
                recipients: old(self)@.recipients.push(recipient),
                ..old(self)@
            }),
    {
        self.stop_request_recipients.push(recipient);
    }

    /// Builds a coordinator with one delayer for each receipt, a pair of a task
    /// handle and the backoff after a failed delivery. Each delayer holds a reference
    /// to the coordinator's termination token; `start` starts it and gives the
    /// recipient of its stop requests, which is subscribed. The subscribers stand in
    /// the order of the receipts. The coordinator itself is left for the caller to
    /// start.
    pub fn start_with_delayers<T, F: Fn(Delayer<T>) -> R>(
        receipts: Vec<(T, Duration)>,
        start: F,
    ) -> (graceful_stop: Self)
        requires
            forall|delayer: Delayer<T>| call_requires(start, (delayer,)),
        ensures
            !graceful_stop@.released,
            graceful_stop@.system_terminator.completion_channel() == None::<Sender<()>>,
            graceful_stop@.recipients.len() == receipts@.len(),
            forall|i: int|
                0 <= i < receipts@.len() ==> started_as(
                    start,
                    DelayerView {
                        task: receipts@[i].0,
                        system_terminator: graceful_stop@.system_terminator,
                        error_duration: receipts@[i].1,
                        stopping: false,
                        released: false,
                    },
                    #[trigger] graceful_stop@.recipients[i],
                ),
    {
        let mut graceful_stop = GracefulStop::new();
        let ghost token = graceful_stop@.system_terminator;
        for receipt in iter: receipts
            invariant
                forall|delayer: Delayer<T>| call_requires(start, (delayer,)),
                iter.seq() == receipts@,
                !graceful_stop@.released,
                graceful_stop@.system_terminator == token,
                graceful_stop@.recipients.len() == iter.index(),
                forall|i: int|
                    0 <= i < iter.index() ==> started_as(
                        start,
                        DelayerView {
                            task: receipts@[i].0,
                            system_terminator: token,
                            error_duration: receipts@[i].1,
                            stopping: false,
                            released: false,
                        },
                        #[trigger] graceful_stop@.recipients[i],
                    ),
        {
            let delayer = Delayer::new(
                receipt.0,
                graceful_stop.clone_system_terminator(),
                receipt.1,
            );
            let recipient = start(delayer);
            graceful_stop.subscribe_ref(recipient);
        }
        graceful_stop
    }

    /// The signals to listen for once the coordinator has started. Each of them, like
    /// a stop asked for inside the process, is handed to [`GracefulStop::handle`] as
    /// a [`StopEvent`].
    pub fn started(&self) -> (signals: Vec<TerminationSignal>)
        ensures
            signals@ == termination_signals(),
    {
        let mut signals = Vec::new();
        signals.push(TerminationSignal::Hangup);
        signals.push(TerminationSignal::Interrupt);
        signals.push(TerminationSignal::Quit);
        signals.push(TerminationSignal::Terminate);
        signals
    }

    /// Takes a shutdown trigger: empties the list of subscribers and returns them,
    /// each to be sent one [`StopRequest`], in the order in which they subscribed. A
    /// later trigger finds the list empty and returns nobody. The hosting actor sends
    /// the requests without waiting for an answer and then stops itself.
    pub fn handle(&mut self, _event: StopEvent) -> (requests: Vec<R>)
        ensures
            requests@ == spec_handle(old(self)@.recipients).1,
            final(self)@ == (GracefulStopView {
                recipients: spec_handle(old(self)@.recipients).0,
                ..old(self)@
            }),
    {
        let mut requests: Vec<R> = Vec::new();
        std::mem::swap(&mut requests, &mut self.stop_request_recipients);
        requests
    }

    /// Called when the hosting actor has stopped: gives the coordinator's own
    /// reference to the termination token back, once. Returns what that release found
    /// and did, or `None` where the reference had been given back before.
    pub fn stopped(&mut self) -> (release: Option<Release>)
        ensures
            final(self)@ == (GracefulStopView { released: true, ..old(self)@ }),
            release.is_some() == !old(self)@.released,
            release matches Some(r) ==> r.fired == fired_action(
                r.before,
                old(self)@.system_terminator.is_routed(),
            ),
    {
        if self.released {
            None
        } else {
            self.released = true;
            Some(self.system_terminator.release())
        }
    }
}

/// Subscribing one by one keeps every recipient, in the order of subscription.
pub proof fn lemma_subscribed<R>(recipients: Seq<R>)
    ensures
        subscribed(recipients) == recipients,
    decreases recipients.len(),
{
    if recipients.len() > 0 {
        lemma_subscribed(recipients.drop_last());
        assert(recipients.drop_last().push(recipients.last()) == recipients);
    }
}

/// With `runners` subscribed to one coordinator, a shutdown trigger gives as many
/// stop requests as there are runners, one for each of them in the order of
/// subscription; where the runners are distinct, each is sent exactly one.
pub proof fn lemma_every_subscriber_gets_one_request<R>(runners: Seq<R>)
    ensures
        spec_handle(subscribed(runners)).1.len() == runners.len(),
        forall|i: int|
            0 <= i < runners.len() ==> #[trigger] spec_handle(subscribed(runners)).1[i]
                == runners[i],
        runners.no_duplicates() ==> forall|i: int|
            0 <= i < runners.len() ==> spec_handle(subscribed(runners)).1.to_multiset().count(
                #[trigger] runners[i],
            ) == 1,
{
    lemma_subscribed(runners);
    if runners.no_duplicates() {
        runners.lemma_multiset_has_no_duplicates();
        assert forall|i: int| 0 <= i < runners.len() implies runners.to_multiset().count(
            #[trigger] runners[i],
        ) == 1 by {
            runners.to_multiset_ensures();
            assert(runners.contains(runners[i]));
        }
    }
}

/// The list of subscribers is emptied once: whatever was subscribed, a second
/// shutdown trigger after the first gives no stop request at all.
pub proof fn lemma_second_trigger_delivers_nothing<R>(recipients: Seq<R>)
    ensures
        spec_handle(spec_handle(recipients).0).1 == Seq::<R>::empty(),
        spec_handle(spec_handle(recipients).0).0 == Seq::<R>::empty(),
{
}

} // verus!
