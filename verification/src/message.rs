//! What the daemon and its clients say to each other.

use crate::timer::{TimerState, TimerUpdate};
use vstd::prelude::*;

verus! {

/// A message from the daemon to a client.
#[derive(Copy, Clone, Debug, PartialEq, Eq)]
pub enum DaemonMessage {
    /// The client's message has arrived.
    Ack,
    /// The timer, after it has changed or because it was asked for.
    StateChange(TimerState),
}

/// A message from a client to the daemon.
#[derive(Copy, Clone, Debug, PartialEq, Eq)]
pub enum ClientMessage {
    /// Is anybody there? Within the daemon: tell everybody what the timer is.
    Ping,
    /// Tell me of every change of the timer.
    Watch,
    /// Change the timer.
    Update(TimerUpdate),
    /// Read the configuration again.
    ReloadConfig,
}

} // verus!
