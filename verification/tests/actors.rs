use actix::{
    Actor, ActorContext, ActorFutureExt, Addr, AsyncContext, Context, ContextFutureSpawner,
    Handler, Recipient, System, WrapFuture,
};
use actix_daemon_utils::delayer::{DelayAction, Delayer, Timing};
use actix_daemon_utils::graceful_stop::{GracefulStop, StopEvent, StopRequest};
use actix_daemon_utils::looper::{LoopAction, Looper, NextLoop};
use std::sync::atomic::{AtomicUsize, Ordering};
use std::sync::mpsc;
use std::sync::{Arc, Mutex};
use std::time::{Duration, Instant};

type LoopTask = actix_daemon_utils::looper::Task;
type DelayTask = actix_daemon_utils::delayer::Task<Addr<DelayRunner>>;

struct LoopRunner(Looper<Recipient<LoopTask>>);

impl Actor for LoopRunner {
    type Context = Context<Self>;

    fn started(&mut self, ctx: &mut Self::Context) {
        if let Some(first) = self.0.started() {
            ctx.notify(first);
        }
    }

    fn stopped(&mut self, _ctx: &mut Self::Context) {
        self.0.stopped();
    }
}

impl Handler<NextLoop> for LoopRunner {
    type Result = ();

    fn handle(&mut self, msg: NextLoop, ctx: &mut Self::Context) {
        match self.0.handle(msg) {
            LoopAction::Wait(duration) => {
                ctx.notify_later(NextLoop::Immediately, duration);
            }
            LoopAction::Invoke => {
                self.0
                    .task()
                    .send(actix_daemon_utils::looper::Task)
                    .into_actor(self)
                    .then(move |reply, act, ctx2| {
                        if let Some(next) = act.0.next_loop(reply) {
                            ctx2.notify(next);
                        }
                        async {}.into_actor(act)
                    })
                    .wait(ctx);
            }
            LoopAction::Nothing => {}
        }
    }
}

impl Handler<StopRequest> for LoopRunner {
    type Result = ();

    fn handle(&mut self, msg: StopRequest, ctx: &mut Self::Context) {
        self.0.stop(msg);
        ctx.stop();
    }
}

/// Hosts a delayer and counts the deliveries that it attempts.
struct DelayRunner(Delayer<Recipient<DelayTask>>, Arc<AtomicUsize>);

impl Actor for DelayRunner {
    type Context = Context<Self>;

    fn started(&mut self, ctx: &mut Self::Context) {
        if let Some(first) = self.0.started() {
            ctx.notify(first);
        }
    }

    fn stopped(&mut self, _ctx: &mut Self::Context) {
        self.0.stopped();
    }
}

impl Handler<Timing> for DelayRunner {
    type Result = ();

    fn handle(&mut self, msg: Timing, ctx: &mut Self::Context) {
        match self.0.handle(msg) {
            DelayAction::Wait(duration) => {
                ctx.notify_later(Timing::Immediately, duration);
            }
            DelayAction::Deliver => {
                self.1.fetch_add(1, Ordering::SeqCst);
                let outcome =
                    self.0.task().do_send(actix_daemon_utils::delayer::Task(ctx.address()));
                if let Some(next) = self.0.delivered(outcome) {
                    ctx.notify(next);
                }
            }
            DelayAction::Nothing => {}
        }
    }
}

impl Handler<StopRequest> for DelayRunner {
    type Result = ();

    fn handle(&mut self, msg: StopRequest, ctx: &mut Self::Context) {
        self.0.stop(msg);
        ctx.stop();
    }
}

struct Coordinator(GracefulStop<Recipient<StopRequest>>);

impl Actor for Coordinator {
    type Context = Context<Self>;

    fn stopped(&mut self, _ctx: &mut Self::Context) {
        self.0.stopped();
    }
}

impl Handler<StopEvent> for Coordinator {
    type Result = ();

    fn handle(&mut self, event: StopEvent, ctx: &mut Self::Context) {
        for recipient in self.0.handle(event) {
            let _ = recipient.do_send(StopRequest);
        }
        ctx.stop();
    }
}

/// A task for a loop runner that notes when it is invoked and always gives the same
/// answer.
struct LoopWork {
    answer: Option<Duration>,
    invoked: Arc<Mutex<Vec<Instant>>>,
}

impl Actor for LoopWork {
    type Context = Context<Self>;
}

impl Handler<LoopTask> for LoopWork {
    type Result = Option<Duration>;

    fn handle(&mut self, _msg: LoopTask, _ctx: &mut Self::Context) -> Option<Duration> {
        self.invoked.lock().unwrap().push(Instant::now());
        self.answer
    }
}

/// A task for a delay runner that notes when work is delivered and calls back with
/// the same delay each time, or never.
struct DelayWork {
    call_back: Option<Duration>,
    delivered: Arc<Mutex<Vec<Instant>>>,
}

impl Actor for DelayWork {
    type Context = Context<Self>;
}

impl Handler<DelayTask> for DelayWork {
    type Result = ();

    fn handle(&mut self, task: DelayTask, _ctx: &mut Self::Context) {
        self.delivered.lock().unwrap().push(Instant::now());
        if let Some(delay) = self.call_back {
            task.0.do_send(Timing::Later(delay));
        }
    }
}

/// A subscriber that only counts the stop requests it is sent.
struct Counter(Arc<AtomicUsize>);

impl Actor for Counter {
    type Context = Context<Self>;
}

impl Handler<StopRequest> for Counter {
    type Result = ();

    fn handle(&mut self, _msg: StopRequest, _ctx: &mut Self::Context) {
        self.0.fetch_add(1, Ordering::SeqCst);
    }
}

async fn wait_for(completion: &mpsc::Receiver<()>) -> bool {
    for _ in 0..500 {
        if completion.try_recv().is_ok() {
            return true;
        }
        actix_rt::time::sleep(Duration::from_millis(10)).await;
    }
    false
}

fn gaps(instants: &[Instant]) -> Vec<Duration> {
    instants.windows(2).map(|pair| pair[1] - pair[0]).collect()
}

#[test]
fn two_loopers_stop_before_their_second_invocation() {
    let (tx, rx) = mpsc::channel::<()>();
    let invoked_a = Arc::new(Mutex::new(Vec::new()));
    let invoked_b = Arc::new(Mutex::new(Vec::new()));
    let system = System::new();
    let (terminated, took) = system.block_on(async {
        let graceful_stop = GracefulStop::new_with_sender(tx);
        let task_a =
            LoopWork { answer: Some(Duration::from_secs(1)), invoked: invoked_a.clone() }.start();
        let task_b =
            LoopWork { answer: Some(Duration::from_secs(3)), invoked: invoked_b.clone() }.start();
        let looper_a =
            LoopRunner(Looper::new(task_a.recipient(), graceful_stop.clone_system_terminator()))
                .start();
        let looper_b =
            LoopRunner(Looper::new(task_b.recipient(), graceful_stop.clone_system_terminator()))
                .start();
        let watch_a = looper_a.clone();
        let watch_b = looper_b.clone();
        let coordinator = Coordinator(
            graceful_stop.subscribe(looper_a.recipient()).subscribe(looper_b.recipient()),
        )
        .start();
        actix_rt::time::sleep(Duration::from_millis(500)).await;
        assert!(rx.try_recv().is_err());
        let triggered = Instant::now();
        coordinator.do_send(StopEvent);
        let terminated = wait_for(&rx).await;
        let took = triggered.elapsed();
        assert!(!watch_a.connected());
        assert!(!watch_b.connected());
        assert!(!coordinator.connected());
        // long enough for the timers of both loopers, had they not been cancelled
        actix_rt::time::sleep(Duration::from_millis(700)).await;
        (terminated, took)
    });
    assert!(terminated);
    assert!(took < Duration::from_secs(2));
    assert_eq!(invoked_a.lock().unwrap().len(), 1);
    assert_eq!(invoked_b.lock().unwrap().len(), 1);
    assert!(rx.try_recv().is_err());
}

#[test]
fn shutdown_reaches_every_subscriber_once() {
    let (tx, rx) = mpsc::channel::<()>();
    let counts: Vec<Arc<AtomicUsize>> = (0..5).map(|_| Arc::new(AtomicUsize::new(0))).collect();
    let system = System::new();
    system.block_on(async {
        let mut graceful_stop = GracefulStop::new_with_sender(tx);
        for count in counts.iter() {
            graceful_stop.subscribe_ref(Counter(count.clone()).start().recipient());
        }
        let coordinator = Coordinator(graceful_stop).start();
        coordinator.do_send(StopEvent);
        coordinator.do_send(StopEvent);
        assert!(wait_for(&rx).await);
        actix_rt::time::sleep(Duration::from_millis(50)).await;
    });
    for count in counts.iter() {
        assert_eq!(count.load(Ordering::SeqCst), 1);
    }
    assert!(rx.try_recv().is_err());
}

#[test]
fn delayed_looper_is_never_invoked_sooner_than_its_delay() {
    let (tx, rx) = mpsc::channel::<()>();
    let invoked = Arc::new(Mutex::new(Vec::new()));
    let delay = Duration::from_millis(100);
    let system = System::new();
    system.block_on(async {
        let graceful_stop = GracefulStop::new_with_sender(tx);
        let task = LoopWork { answer: Some(delay), invoked: invoked.clone() }.start();
        let looper =
            LoopRunner(Looper::new(task.recipient(), graceful_stop.clone_system_terminator()))
                .start();
        let coordinator = Coordinator(graceful_stop.subscribe(looper.recipient())).start();
        actix_rt::time::sleep(Duration::from_millis(450)).await;
        coordinator.do_send(StopEvent);
        assert!(wait_for(&rx).await);
    });
    let invoked = invoked.lock().unwrap();
    assert!(invoked.len() >= 3);
    for gap in gaps(&invoked) {
        assert!(gap >= delay);
    }
}

#[test]
fn busy_looper_is_invoked_back_to_back() {
    let (tx, rx) = mpsc::channel::<()>();
    let invoked = Arc::new(Mutex::new(Vec::new()));
    let system = System::new();
    system.block_on(async {
        let graceful_stop = GracefulStop::new_with_sender(tx);
        let task = LoopWork { answer: None, invoked: invoked.clone() }.start();
        let looper =
            LoopRunner(Looper::new(task.recipient(), graceful_stop.clone_system_terminator()))
                .start();
        let coordinator = Coordinator(graceful_stop.subscribe(looper.recipient())).start();
        actix_rt::time::sleep(Duration::from_millis(100)).await;
        coordinator.do_send(StopEvent);
        assert!(wait_for(&rx).await);
    });
    let at_stop = invoked.lock().unwrap().len();
    assert!(at_stop > 50);
}

#[test]
fn delayer_without_callback_delivers_exactly_once() {
    let (tx, rx) = mpsc::channel::<()>();
    let delivered = Arc::new(Mutex::new(Vec::new()));
    let system = System::new();
    system.block_on(async {
        let graceful_stop = GracefulStop::new_with_sender(tx);
        let task = DelayWork { call_back: None, delivered: delivered.clone() }.start();
        let delayer = DelayRunner(
            Delayer::new(
                task.recipient(),
                graceful_stop.clone_system_terminator(),
                Duration::from_millis(20),
            ),
            Arc::new(AtomicUsize::new(0)),
        )
        .start();
        let coordinator = Coordinator(graceful_stop.subscribe(delayer.recipient())).start();
        actix_rt::time::sleep(Duration::from_millis(300)).await;
        assert_eq!(delivered.lock().unwrap().len(), 1);
        assert!(rx.try_recv().is_err());
        coordinator.do_send(StopEvent);
        assert!(wait_for(&rx).await);
    });
    assert_eq!(delivered.lock().unwrap().len(), 1);
}

#[test]
fn delayer_delivers_again_after_the_delay_that_the_task_sends_back() {
    let (tx, rx) = mpsc::channel::<()>();
    let delivered = Arc::new(Mutex::new(Vec::new()));
    let delay = Duration::from_millis(80);
    let system = System::new();
    system.block_on(async {
        let graceful_stop = GracefulStop::new_with_sender(tx);
        let task = DelayWork { call_back: Some(delay), delivered: delivered.clone() }.start();
        let delayer = DelayRunner(
            Delayer::new(
                task.recipient(),
                graceful_stop.clone_system_terminator(),
                Duration::from_secs(10),
            ),
            Arc::new(AtomicUsize::new(0)),
        )
        .start();
        let coordinator = Coordinator(graceful_stop.subscribe(delayer.recipient())).start();
        actix_rt::time::sleep(Duration::from_millis(400)).await;
        coordinator.do_send(StopEvent);
        assert!(wait_for(&rx).await);
    });
    let delivered = delivered.lock().unwrap();
    assert!(delivered.len() >= 3);
    for gap in gaps(&delivered) {
        assert!(gap >= delay);
    }
}

/// A task for a delay runner that is gone before any work reaches it.
struct Gone;

impl Actor for Gone {
    type Context = Context<Self>;

    fn started(&mut self, ctx: &mut Self::Context) {
        ctx.stop();
    }
}

impl Handler<DelayTask> for Gone {
    type Result = ();

    fn handle(&mut self, _task: DelayTask, _ctx: &mut Self::Context) {}
}

#[test]
fn delayer_retries_a_closed_mailbox_at_its_backoff() {
    let (tx, rx) = mpsc::channel::<()>();
    let attempts = Arc::new(AtomicUsize::new(0));
    let system = System::new();
    system.block_on(async {
        let graceful_stop = GracefulStop::new_with_sender(tx);
        let task = Gone.start();
        actix_rt::time::sleep(Duration::from_millis(50)).await;
        assert!(!task.connected());
        let delayer = DelayRunner(
            Delayer::new(
                task.recipient(),
                graceful_stop.clone_system_terminator(),
                Duration::from_millis(40),
            ),
            attempts.clone(),
        )
        .start();
        let coordinator = Coordinator(graceful_stop.subscribe(delayer.recipient())).start();
        actix_rt::time::sleep(Duration::from_millis(220)).await;
        let before_stop = attempts.load(Ordering::SeqCst);
        assert!(before_stop >= 3);
        coordinator.do_send(StopEvent);
        assert!(wait_for(&rx).await);
        actix_rt::time::sleep(Duration::from_millis(100)).await;
        assert_eq!(attempts.load(Ordering::SeqCst), before_stop);
    });
    assert!(rx.try_recv().is_err());
}
