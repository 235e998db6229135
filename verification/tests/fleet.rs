use actix_daemon_utils::graceful_stop::{
    GracefulStop, StopEvent, StopRequest, TerminationAction,
};
use actix_daemon_utils::looper::{LoopAction, Looper, NextLoop};
use std::sync::mpsc;
use std::time::Duration;

/// A loop runner on a clock of its own, with the timer that it has set, if any.
struct Runner {
    looper: Looper<Duration>,
    invoked: Vec<Duration>,
    timer: Option<Duration>,
    stop_requests: usize,
}

impl Runner {
    /// Handles `msg` at `now`; the task answers at once with the delay that serves as
    /// its handle.
    fn deliver(&mut self, msg: NextLoop, now: Duration) {
        let mut pending = Some(msg);
        while let Some(msg) = pending.take() {
            match self.looper.handle(msg) {
                LoopAction::Invoke => {
                    self.invoked.push(now);
                    pending = self.looper.next_loop(Ok(Some(*self.looper.task())));
                }
                LoopAction::Wait(duration) => self.timer = Some(now + duration),
                LoopAction::Nothing => {}
            }
        }
    }

    fn start(&mut self) {
        if let Some(first) = self.looper.started() {
            self.deliver(first, Duration::ZERO);
        }
    }

    /// Lets the clock reach `now`: every timer that is due by then expires.
    fn advance(&mut self, now: Duration) {
        while let Some(due) = self.timer {
            if due > now {
                break;
            }
            self.timer = None;
            self.deliver(NextLoop::Immediately, due);
        }
    }
}

fn fleet(
    delays: &[Duration],
    graceful_stop: &mut GracefulStop<usize>,
) -> Vec<Runner> {
    let mut runners = Vec::new();
    for (index, delay) in delays.iter().enumerate() {
        runners.push(Runner {
            looper: Looper::new(*delay, graceful_stop.clone_system_terminator()),
            invoked: Vec::new(),
            timer: None,
            stop_requests: 0,
        });
        graceful_stop.subscribe_ref(index);
    }
    for runner in runners.iter_mut() {
        runner.start();
    }
    runners
}

#[test]
fn shutdown_after_half_a_second_stops_two_loopers_before_their_second_run() {
    let (tx, rx) = mpsc::channel::<()>();
    let mut graceful_stop = GracefulStop::new_with_sender(tx);
    let delays = [Duration::from_secs(1), Duration::from_secs(3)];
    let mut runners = fleet(&delays, &mut graceful_stop);
    let trigger = Duration::from_millis(500);
    for runner in runners.iter_mut() {
        runner.advance(trigger);
    }
    assert_eq!(runners[0].timer, Some(Duration::from_secs(1)));
    assert_eq!(runners[1].timer, Some(Duration::from_secs(3)));

    // the trigger: one stop request to each looper
    let requests = graceful_stop.handle(StopEvent);
    assert_eq!(requests, vec![0, 1]);
    for to in requests {
        runners[to].stop_requests += 1;
        runners[to].looper.stop(StopRequest);
    }
    // the coordinator stops itself after the broadcast, the loopers after it
    let mut fired = Vec::new();
    fired.push(graceful_stop.stopped().unwrap().fired);
    assert!(rx.try_recv().is_err());
    fired.push(runners[0].looper.stopped().unwrap().fired);
    assert!(rx.try_recv().is_err());
    fired.push(runners[1].looper.stopped().unwrap().fired);
    assert_eq!(fired, vec![None, None, Some(TerminationAction::NotifyChannel)]);
    assert_eq!(rx.try_recv(), Ok(()));

    // even a timer that was not cancelled in time leads to no second invocation
    for runner in runners.iter_mut() {
        runner.advance(Duration::from_secs(10));
        assert_eq!(runner.invoked, vec![Duration::ZERO]);
        assert_eq!(runner.stop_requests, 1);
        assert_eq!(runner.timer, None);
    }
    assert!(graceful_stop.handle(StopEvent).is_empty());
    assert!(rx.try_recv().is_err());
}

#[test]
fn loopers_keep_their_own_pace_until_the_shutdown() {
    let (tx, rx) = mpsc::channel::<()>();
    let mut graceful_stop = GracefulStop::new_with_sender(tx);
    let delays = [Duration::from_secs(1), Duration::from_secs(3)];
    let mut runners = fleet(&delays, &mut graceful_stop);
    for runner in runners.iter_mut() {
        runner.advance(Duration::from_millis(6500));
    }
    let seconds = |runner: &Runner| -> Vec<u64> {
        runner.invoked.iter().map(|at| at.as_secs()).collect()
    };
    assert_eq!(seconds(&runners[0]), vec![0, 1, 2, 3, 4, 5, 6]);
    assert_eq!(seconds(&runners[1]), vec![0, 3, 6]);
    for to in graceful_stop.handle(StopEvent) {
        runners[to].looper.stop(StopRequest);
        runners[to].looper.stopped();
    }
    assert!(rx.try_recv().is_err());
    assert_eq!(graceful_stop.stopped().unwrap().fired, Some(TerminationAction::NotifyChannel));
    assert_eq!(rx.try_recv(), Ok(()));
    for runner in runners.iter_mut() {
        let before = runner.invoked.len();
        runner.advance(Duration::from_secs(60));
        assert_eq!(runner.invoked.len(), before);
    }
}
