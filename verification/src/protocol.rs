//! What the daemon, its service of a client and the client do together.

use crate::command::{Command, Session, SessionAction, SessionEvent};
use crate::daemon::{turns, Daemon, Effects, Turn, Wake};
use crate::message::{ClientMessage, DaemonMessage};
use crate::serving::{Service, ServiceAction, ServiceEvent};
use crate::time::Stamp;
use crate::timer::{DeadlineOverflow, TimerUpdate};
use vstd::prelude::*;

verus! {

/// A client that is told to change the timer sends the change; the service acknowledges it and
/// hands it to the daemon; and the daemon changes the timer so, unless the new deadline would lie
/// outside of the calendar.
pub proof fn law_update_reaches_the_timer(
    update: TimerUpdate,
    before: Daemon,
    now: Stamp,
    after: Daemon,
    result: Result<Turn, DeadlineOverflow>,
)
    requires
        turns(before, Wake::Message(ClientMessage::Update(update)), now, after, result),
    ensures
        ({
            let request = ClientMessage::Update(update);
            let (acknowledging, reply) = Service::Listening.next(ServiceEvent::Received(request));
            let changed = before.timer@.updated(before.config.timer, update, now);
            &&& Command::Update(update).request() == Some(request)
            &&& reply == ServiceAction::Send(DaemonMessage::Ack)
            &&& acknowledging.next(ServiceEvent::Done).1 == ServiceAction::Relay(request)
            &&& after.timer@ == (if changed.fits() {
                changed
            } else {
                before.timer@
            })
        }),
{
}

/// A client that is told to watch sends the request; the service acknowledges it, has the daemon
/// asked for the timer and then listens to what the daemon tells; what the daemon tells next is
/// the timer as it stands; and with that the client knows the timer.
pub proof fn law_watcher_learns_the_timer(
    before: Daemon,
    now: Stamp,
    after: Daemon,
    effects: Effects,
    later: Stamp,
    next: Session,
    action: SessionAction,
)
    requires
        turns(before, Wake::Message(ClientMessage::Ping), now, after, Ok(Turn::Go(effects))),
        effects.reply matches Some(timer) ==> Session::AwaitingTimer.goes_on(
            SessionEvent::Received(DaemonMessage::StateChange(timer)),
            later,
            next,
            action,
        ),
    ensures
        ({
            let (acknowledging, reply) = Service::Listening.next(
                ServiceEvent::Received(ClientMessage::Watch),
            );
            let (pinging, ping) = acknowledging.next(ServiceEvent::Done);
            let (watching, subscribe) = pinging.next(ServiceEvent::Done);
            &&& Command::Waybar.request() == Some(ClientMessage::Watch)
            &&& reply == ServiceAction::Send(DaemonMessage::Ack)
            &&& ping == ServiceAction::Relay(ClientMessage::Ping)
            &&& subscribe is Subscribe
            &&& effects.reply == Some(before.timer)
            &&& watching.next(ServiceEvent::Changed(before.timer)).1 == ServiceAction::Send(
                DaemonMessage::StateChange(before.timer),
            )
            &&& next == Session::Watching { timer: before.timer, shown: None }
            &&& after.timer@ == before.timer@
        }),
{
}

} // verus!
