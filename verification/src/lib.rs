//! Daemon utilities for actors: runners that invoke a task again and again, each on a
//! schedule that the task itself controls, and a graceful stop that tells every runner
//! to stop and ends the process once all of them have.
//!
//! The types here hold the state and take the decisions. An actor hosts each of them
//! and does what was decided: it sends the messages, sets the timers and listens for
//! the signals.

pub mod delayer;
pub mod graceful_stop;
pub mod ledger;
pub mod looper;
