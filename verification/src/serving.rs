//! How the daemon serves one client.

use crate::daemon::Daemon;
use crate::message::{ClientMessage, DaemonMessage};
use crate::timer::TimerState;
use vstd::prelude::*;

verus! {

/// Where the service of a client stands.
#[derive(Copy, Clone, Debug, PartialEq, Eq)]
pub enum Service {
    /// The next message of the client is awaited.
    Listening,
    /// A message of the client is being acknowledged.
    Acknowledging(ClientMessage),
    /// The daemon is being told what the client wants.
    Relaying,
    /// The daemon is being asked for the timer on behalf of a client that wants to watch.
    Pinging,
    /// The client watches, and a change of the timer is awaited.
    Watching,
    /// A change of the timer is being told to the client.
    Telling,
    /// The service is over.
    Over,
}

/// What has become of the last thing that was to be done.
#[derive(Copy, Clone, Debug, PartialEq, Eq)]
pub enum ServiceEvent {
    /// The client has sent a message.
    Received(ClientMessage),
    /// The timer has changed.
    Changed(TimerState),
    /// It is done.
    Done,
    /// It could not be done; or there is nothing more to receive.
    Failed,
}

/// What is to be done next.
#[derive(Copy, Clone, Debug, PartialEq, Eq)]
pub enum ServiceAction {
    /// Receive a message of the client.
    Receive,
    /// Send the client a message.
    Send(DaemonMessage),
    /// Hand the daemon a message.
    Relay(ClientMessage),
    /// Listen to changes of the timer from here on, and await one.
    Subscribe,
    /// Await a change of the timer.
    AwaitChange,
    /// Nothing more.
    Finish,
    /// Nothing more, for an error.
    Fail(ServiceError),
}

/// Why the service of a client has failed.
#[derive(Copy, Clone, Debug, PartialEq, Eq, Structural)]
pub enum ServiceError {
    AckNotSent,
    PingNotRelayed,
    MessageNotRelayed,
    ChangeNotSent,
}

impl ServiceError {
    /// The error in words.
    pub open spec fn words(self) -> Seq<char> {
        match self {
            ServiceError::AckNotSent => "failed to send ack"@,
            ServiceError::PingNotRelayed => "failed to ping state changes"@,
            ServiceError::MessageNotRelayed => "failed to relay message to daemon thread"@,
            ServiceError::ChangeNotSent => "failed to send state change to client"@,
        }
    }

    /// The error in words.
    pub fn message(&self) -> (message: &'static str)
        ensures
            message@ == self.words(),
    {
        match self {
            ServiceError::AckNotSent => "failed to send ack",
            ServiceError::PingNotRelayed => "failed to ping state changes",
            ServiceError::MessageNotRelayed => "failed to relay message to daemon thread",
            ServiceError::ChangeNotSent => "failed to send state change to client",
        }
    }
}

impl Service {
    /// How the service goes on. Each message is acknowledged before anything else is done about
    /// it. A ping needs no more. A request to watch makes the daemon tell the timer; from then on
    /// the client is told of every change and nothing else is received from it. Any other message
    /// goes to the daemon.
    pub open spec fn next(self, event: ServiceEvent) -> (Service, ServiceAction) {
        match (self, event) {
            (Service::Listening, ServiceEvent::Received(message)) => (
                Service::Acknowledging(message),
                ServiceAction::Send(DaemonMessage::Ack),
            ),
            (Service::Acknowledging(message), ServiceEvent::Done) => match message {
                ClientMessage::Ping => (Service::Listening, ServiceAction::Receive),
                ClientMessage::Watch => (
                    Service::Pinging,
                    ServiceAction::Relay(ClientMessage::Ping),
                ),
                _ => (Service::Relaying, ServiceAction::Relay(message)),
            },
            (Service::Relaying, ServiceEvent::Done) => (Service::Listening, ServiceAction::Receive),
            (Service::Pinging, ServiceEvent::Done) => (Service::Watching, ServiceAction::Subscribe),
            (Service::Watching, ServiceEvent::Changed(timer)) => (
                Service::Telling,
                ServiceAction::Send(DaemonMessage::StateChange(timer)),
            ),
            (Service::Telling, ServiceEvent::Done) => (
                Service::Watching,
                ServiceAction::AwaitChange,
            ),
            _ => (Service::Over, self.when_failed()),
        }
    }

    /// How the service ends when what was to be done is not. That there is nothing more to
    /// receive is no error.
    pub open spec fn when_failed(self) -> ServiceAction {
        match self {
            Service::Acknowledging(_) => ServiceAction::Fail(ServiceError::AckNotSent),
            Service::Relaying => ServiceAction::Fail(ServiceError::MessageNotRelayed),
            Service::Pinging => ServiceAction::Fail(ServiceError::PingNotRelayed),
            Service::Telling => ServiceAction::Fail(ServiceError::ChangeNotSent),
            _ => ServiceAction::Finish,
        }
    }
}

impl Daemon {
    /// Goes on with the service of a client. It begins with [`Service::Listening`] and
    /// [`ServiceAction::Receive`].
    pub fn on_client(service: Service, event: ServiceEvent) -> (next: (Service, ServiceAction))
        ensures
            next == service.next(event),
    {
        match (service, event) {
            (Service::Listening, ServiceEvent::Received(message)) => (
                Service::Acknowledging(message),
                ServiceAction::Send(DaemonMessage::Ack),
            ),
            (Service::Acknowledging(message), ServiceEvent::Done) => match message {
                ClientMessage::Ping => (Service::Listening, ServiceAction::Receive),
                ClientMessage::Watch => (
                    Service::Pinging,
                    ServiceAction::Relay(ClientMessage::Ping),
                ),
                _ => (Service::Relaying, ServiceAction::Relay(message)),
            },
            (Service::Relaying, ServiceEvent::Done) => (Service::Listening, ServiceAction::Receive),
            (Service::Pinging, ServiceEvent::Done) => (Service::Watching, ServiceAction::Subscribe),
            (Service::Watching, ServiceEvent::Changed(timer)) => (
                Service::Telling,
                ServiceAction::Send(DaemonMessage::StateChange(timer)),
            ),
            (Service::Telling, ServiceEvent::Done) => (
                Service::Watching,
                ServiceAction::AwaitChange,
            ),
            (Service::Acknowledging(_), _) => (
                Service::Over,
                ServiceAction::Fail(ServiceError::AckNotSent),
            ),
            (Service::Relaying, _) => (
                Service::Over,
                ServiceAction::Fail(ServiceError::MessageNotRelayed),
            ),
            (Service::Pinging, _) => (
                Service::Over,
                ServiceAction::Fail(ServiceError::PingNotRelayed),
            ),
            (Service::Telling, _) => (
                Service::Over,
                ServiceAction::Fail(ServiceError::ChangeNotSent),
            ),
            _ => (Service::Over, ServiceAction::Finish),
        }
    }
}

/// The service after a course of events, from its beginning.
pub open spec fn service_after(events: Seq<ServiceEvent>) -> (Service, ServiceAction)
    decreases events.len(),
{
    if events.len() == 0 {
        (Service::Listening, ServiceAction::Receive)
    } else {
        service_after(events.drop_last()).0.next(events.last())
    }
}

/// The daemon is never handed a request to watch, so it can handle whatever it is handed.
pub proof fn law_watch_is_not_relayed(service: Service, event: ServiceEvent)
    ensures
        service.next(event).1 matches ServiceAction::Relay(message) ==> message !is Watch,
{
}

/// How often the daemon has been asked for the timer in a course of events.
pub open spec fn pings(events: Seq<ServiceEvent>) -> nat
    decreases events.len(),
{
    if events.len() == 0 {
        0
    } else if service_after(events).1 == ServiceAction::Relay(ClientMessage::Ping) {
        pings(events.drop_last()) + 1
    } else {
        pings(events.drop_last())
    }
}

/// The daemon is asked for the timer at most once on behalf of a client, and only for one that
/// watches from then on.
pub proof fn law_at_most_one_ping_is_relayed(events: Seq<ServiceEvent>)
    ensures
        pings(events) <= 1,
        pings(events) == 1 ==> {
            let service = service_after(events).0;
            service is Pinging || service is Watching || service is Telling || service is Over
        },
    decreases events.len(),
{
    if events.len() > 0 {
        law_at_most_one_ping_is_relayed(events.drop_last());
    }
}

/// The first thing that is done about a message is to acknowledge it.
pub proof fn law_every_message_is_acknowledged(
    events: Seq<ServiceEvent>,
    message: ClientMessage,
)
    requires
        service_after(events).1 is Receive,
    ensures
        service_after(events.push(ServiceEvent::Received(message))).1 == ServiceAction::Send(
            DaemonMessage::Ack,
        ),
{
    lemma_receive_means_listening(events);
    assert(events.push(ServiceEvent::Received(message)).drop_last() =~= events);
}

/// A message is awaited exactly while the service listens.
proof fn lemma_receive_means_listening(events: Seq<ServiceEvent>)
    ensures
        service_after(events).1 is Receive <==> service_after(events).0 is Listening,
{
}

/// A client that watches is told the timer as it was pinged for and then each change, in the order
/// in which they come.
pub proof fn law_watcher_is_told_each_change(changes: Seq<TimerState>, timer: TimerState)
    ensures
        ({
            let told = watched(changes);
            &&& service_after(told).0 is Watching
            &&& service_after(told.push(ServiceEvent::Changed(timer))).1 == ServiceAction::Send(
                DaemonMessage::StateChange(timer),
            )
        }),
    decreases changes.len(),
{
    let told = watched(changes);
    if changes.len() == 0 {
        let nothing = Seq::<ServiceEvent>::empty();
        let begin = nothing.push(ServiceEvent::Received(ClientMessage::Watch));
        assert(service_after(nothing).0 is Listening);
        assert(begin.drop_last() =~= nothing);
        let acknowledged = begin.push(ServiceEvent::Done);
        assert(acknowledged.drop_last() =~= begin);
        let pinged = acknowledged.push(ServiceEvent::Done);
        assert(pinged.drop_last() =~= acknowledged);
        assert(service_after(begin).0 == Service::Acknowledging(ClientMessage::Watch));
        assert(service_after(acknowledged).0 is Pinging);
        assert(told =~= pinged);
    } else {
        law_watcher_is_told_each_change(changes.drop_last(), changes.last());
        let before = watched(changes.drop_last());
        let changed = before.push(ServiceEvent::Changed(changes.last()));
        assert(changed.drop_last() =~= before);
        assert(told.drop_last() =~= changed);
        assert(service_after(changed).0 is Telling);
    }
    assert(told.push(ServiceEvent::Changed(timer)).drop_last() =~= told);
}

/// The events of a service in which the client asks to watch and is then told these changes.
pub open spec fn watched(changes: Seq<TimerState>) -> Seq<ServiceEvent>
    decreases changes.len(),
{
    if changes.len() == 0 {
        seq![
            ServiceEvent::Received(ClientMessage::Watch),
            ServiceEvent::Done,
            ServiceEvent::Done,
        ]
    } else {
        watched(changes.drop_last()).push(ServiceEvent::Changed(changes.last())).push(
            ServiceEvent::Done,
        )
    }
}

/// What was last to be done tells where the service stands.
proof fn lemma_action_tells_the_service(events: Seq<ServiceEvent>)
    ensures
        match service_after(events).1 {
            ServiceAction::Receive => service_after(events).0 is Listening,
            ServiceAction::Send(DaemonMessage::Ack) => service_after(events).0 is Acknowledging,
            ServiceAction::Send(_) => service_after(events).0 is Telling,
            ServiceAction::Relay(message) => if message is Ping {
                service_after(events).0 is Pinging
            } else {
                service_after(events).0 is Relaying
            },
            ServiceAction::Subscribe | ServiceAction::AwaitChange => service_after(
                events,
            ).0 is Watching,
            ServiceAction::Finish | ServiceAction::Fail(_) => service_after(events).0 is Over,
        },
{
}

/// However the service has come there: once a message has been received and acknowledged, a ping
/// has been dealt with; a request to watch has the daemon asked for the timer and then listened
/// to; and any other message goes to the daemon as it is, after which the next one is awaited.
pub proof fn law_acknowledged_message_is_acted_on(
    events: Seq<ServiceEvent>,
    message: ClientMessage,
)
    requires
        service_after(events).1 is Receive,
    ensures
        ({
            let received = events.push(ServiceEvent::Received(message));
            let acknowledged = received.push(ServiceEvent::Done);
            let passed_on = acknowledged.push(ServiceEvent::Done);
            match message {
                ClientMessage::Ping => service_after(acknowledged).1 is Receive,
                ClientMessage::Watch => {
                    &&& service_after(acknowledged).1 == ServiceAction::Relay(ClientMessage::Ping)
                    &&& service_after(passed_on).1 is Subscribe
                },
                _ => {
                    &&& service_after(acknowledged).1 == ServiceAction::Relay(message)
                    &&& service_after(passed_on).1 is Receive
                },
            }
        }),
{
    lemma_action_tells_the_service(events);
    let received = events.push(ServiceEvent::Received(message));
    let acknowledged = received.push(ServiceEvent::Done);
    let passed_on = acknowledged.push(ServiceEvent::Done);
    assert(received.drop_last() =~= events);
    assert(acknowledged.drop_last() =~= received);
    assert(passed_on.drop_last() =~= acknowledged);
    assert(service_after(received).0 == Service::Acknowledging(message));
}

/// What is done after an event follows from what was to be done. A message that was awaited is
/// acknowledged. A change that was awaited is told, and then the next one is awaited. Where there
/// is nothing more to receive, and after the end, the service is over. What could not be sent or
/// relayed is an error of its own.
pub proof fn law_service_goes_on(events: Seq<ServiceEvent>, event: ServiceEvent)
    ensures
        ({
            let next = service_after(events.push(event)).1;
            match (service_after(events).1, event) {
                (ServiceAction::Receive, ServiceEvent::Received(_)) => next
                    == ServiceAction::Send(DaemonMessage::Ack),
                (ServiceAction::Receive, _) => next is Finish,
                (ServiceAction::Send(DaemonMessage::Ack), ServiceEvent::Done) => next is Receive
                    || next is Relay,
                (ServiceAction::Send(DaemonMessage::Ack), _) => next == ServiceAction::Fail(
                    ServiceError::AckNotSent,
                ),
                (
                    ServiceAction::Send(DaemonMessage::StateChange(_)),
                    ServiceEvent::Done,
                ) => next is AwaitChange,
                (ServiceAction::Send(DaemonMessage::StateChange(_)), _) => next
                    == ServiceAction::Fail(ServiceError::ChangeNotSent),
                (ServiceAction::Relay(ClientMessage::Ping), ServiceEvent::Done) => next
                    is Subscribe,
                (ServiceAction::Relay(ClientMessage::Ping), _) => next == ServiceAction::Fail(
                    ServiceError::PingNotRelayed,
                ),
                (ServiceAction::Relay(_), ServiceEvent::Done) => next is Receive,
                (ServiceAction::Relay(_), _) => next == ServiceAction::Fail(
                    ServiceError::MessageNotRelayed,
                ),
                (
                    ServiceAction::Subscribe | ServiceAction::AwaitChange,
                    ServiceEvent::Changed(timer),
                ) => next == ServiceAction::Send(DaemonMessage::StateChange(timer)),
                _ => next is Finish,
            }
        }),
{
    lemma_action_tells_the_service(events);
    assert(events.push(event).drop_last() =~= events);
}

/// Each error has its words.
pub proof fn law_service_errors_in_words()
    ensures
        ServiceError::AckNotSent.words() == "failed to send ack"@,
        ServiceError::PingNotRelayed.words() == "failed to ping state changes"@,
        ServiceError::MessageNotRelayed.words() == "failed to relay message to daemon thread"@,
        ServiceError::ChangeNotSent.words() == "failed to send state change to client"@,
{
}

} // verus!
