//! What the program is told to do, and what it does about it as a client of the daemon.

use crate::config::Config;
use crate::connection::{AckError, Connection};
use crate::message::{ClientMessage, DaemonMessage};
use crate::time::{Moment, Stamp};
use crate::timer::{clock_can_read, TimerState, TimerUpdate};
use crate::waybar::{
    law_display_of_an_error, law_display_tells_mode_and_time_left, shows, shows_error, Display,
    WaybarOutput,
};
use vstd::prelude::*;

verus! {

/// How long a change of the timer is awaited before the display is brought up to date without
/// one, in milliseconds.
pub const REFRESH_MILLIS: u64 = 500;

/// What the program is told to do.
#[derive(Copy, Clone, Debug, PartialEq, Eq)]
pub enum Command {
    /// Runs the pomodoro daemon.
    Daemon,
    /// Connects to the pomodoro daemon and displays regular Waybar updates.
    Waybar,
    /// Changes the timer.
    Update(TimerUpdate),
}

/// Where a client stands.
#[derive(Debug, PartialEq, Eq)]
pub enum Session {
    /// It connects to the daemon, to send this.
    Connecting(ClientMessage),
    /// It sends this.
    Sending(ClientMessage),
    /// It awaits the acknowledgement of this.
    AwaitingAck(ClientMessage),
    /// It awaits the timer for the first time.
    AwaitingTimer,
    /// It knows the timer, has displayed the output, if any, and awaits a change.
    Watching { timer: TimerState, shown: Option<WaybarOutput> },
    /// It knows the timer and displays the output.
    Showing { timer: TimerState, shown: WaybarOutput },
    /// It displays that the daemon is gone.
    Closing,
    /// It has ended.
    Ended,
}

/// What has become of the last thing that was to be done.
#[derive(Copy, Clone, Debug, PartialEq, Eq)]
pub enum SessionEvent {
    /// It is done.
    Done,
    /// A message has been received.
    Received(DaemonMessage),
    /// No message has been received in time.
    TimedOut,
    /// It could not be done; or there is nothing more to receive.
    Failed,
}

/// What is to be done next.
#[derive(Debug, PartialEq, Eq)]
pub enum SessionAction {
    /// Run the daemon, and nothing more.
    RunDaemon,
    /// Connect to the daemon.
    Connect,
    /// Send the daemon a message.
    Send(ClientMessage),
    /// Receive a message.
    Receive,
    /// Receive a message, but wait no longer than so many milliseconds.
    ReceiveWithin(u64),
    /// Display this.
    Print(WaybarOutput),
    /// Nothing more.
    Finish,
    /// Nothing more, for an error.
    Fail(SessionError),
}

/// Why a client has failed.
#[derive(Copy, Clone, Debug, PartialEq, Eq)]
pub enum SessionError {
    NotConnected,
    WatchNotSent,
    UpdateNotSent,
    Ack(AckError),
    NoTimer,
    NotATimer,
    NotPrinted,
}

impl SessionError {
    /// The error in words.
    pub open spec fn words(self) -> Seq<char> {
        match self {
            SessionError::NotConnected => "failed to connect to socket"@,
            SessionError::WatchNotSent => "failed to send watch message"@,
            SessionError::UpdateNotSent => "failed to send update"@,
            SessionError::Ack(AckError::NoReply) => "failed to receive ACK"@,
            SessionError::Ack(AckError::Unexpected(_)) => "expected ACK from server"@,
            SessionError::NoTimer => "failed to receive initial timer state"@,
            SessionError::NotATimer => "expected next daemon message to be timer state"@,
            SessionError::NotPrinted => "failed to serialize waybar output"@,
        }
    }

    /// The error in words.
    pub fn message(&self) -> (message: &'static str)
        ensures
            message@ == self.words(),
    {
        match self {
            SessionError::NotConnected => "failed to connect to socket",
            SessionError::WatchNotSent => "failed to send watch message",
            SessionError::UpdateNotSent => "failed to send update",
            SessionError::Ack(AckError::NoReply) => "failed to receive ACK",
            SessionError::Ack(AckError::Unexpected(_)) => "expected ACK from server",
            SessionError::NoTimer => "failed to receive initial timer state",
            SessionError::NotATimer => "expected next daemon message to be timer state",
            SessionError::NotPrinted => "failed to serialize waybar output",
        }
    }
}

impl Command {
    /// What a client sends for this command. None is sent by the daemon itself.
    pub open spec fn request(self) -> Option<ClientMessage> {
        match self {
            Command::Daemon => None,
            Command::Waybar => Some(ClientMessage::Watch),
            Command::Update(update) => Some(ClientMessage::Update(update)),
        }
    }

    /// How the program begins: it becomes the daemon, or connects to it.
    pub fn run(self) -> (begin: (Session, SessionAction))
        ensures
            begin == (match self.request() {
                None => (Session::Ended, SessionAction::RunDaemon),
                Some(message) => (Session::Connecting(message), SessionAction::Connect),
            }),
    {
        match self {
            Command::Daemon => (Session::Ended, SessionAction::RunDaemon),
            Command::Waybar => (Session::Connecting(ClientMessage::Watch), SessionAction::Connect),
            Command::Update(update) => (
                Session::Connecting(ClientMessage::Update(update)),
                SessionAction::Connect,
            ),
        }
    }
}

/// The error of a message that could not be sent.
pub open spec fn not_sent(message: ClientMessage) -> SessionError {
    if message is Watch {
        SessionError::WatchNotSent
    } else {
        SessionError::UpdateNotSent
    }
}

/// The timer that a client knows of after a message, if it knew `timer` before.
pub open spec fn known_after(timer: TimerState, event: SessionEvent) -> TimerState {
    match event {
        SessionEvent::Received(DaemonMessage::StateChange(changed)) => changed,
        _ => timer,
    }
}

/// What is displayed, if anything.
pub open spec fn display_of(shown: Option<WaybarOutput>) -> Option<Display> {
    match shown {
        Some(output) => Some(output@),
        None => None,
    }
}

impl Session {
    /// How a client goes on at `now`.
    ///
    /// It connects, sends its message and awaits the acknowledgement. An update is done with that.
    /// A client that watches then awaits the timer. From then on, after each message and each time
    /// that none has come for a while, it displays the timer as it knows it, unless that is on
    /// display already; when the daemon is gone, it displays so and ends.
    pub open spec fn goes_on(
        self,
        event: SessionEvent,
        now: Stamp,
        next: Session,
        action: SessionAction,
    ) -> bool {
        match self {
            Session::Connecting(message) => if event is Done {
                next == Session::Sending(message) && action == SessionAction::Send(message)
            } else {
                ends(next, action, SessionError::NotConnected)
            },
            Session::Sending(message) => if event is Done {
                next == Session::AwaitingAck(message) && action is Receive
            } else {
                ends(next, action, not_sent(message))
            },
            Session::AwaitingAck(message) => match event {
                SessionEvent::Received(DaemonMessage::Ack) => if message is Watch {
                    next is AwaitingTimer && action is Receive
                } else {
                    next is Ended && action is Finish
                },
                SessionEvent::Received(other) => ends(
                    next,
                    action,
                    SessionError::Ack(AckError::Unexpected(other)),
                ),
                _ => ends(next, action, SessionError::Ack(AckError::NoReply)),
            },
            Session::AwaitingTimer => match event {
                SessionEvent::Received(DaemonMessage::StateChange(timer)) => {
                    &&& next == Session::Watching { timer, shown: None }
                    &&& action == SessionAction::ReceiveWithin(REFRESH_MILLIS)
                },
                SessionEvent::Received(_) => ends(next, action, SessionError::NotATimer),
                _ => ends(next, action, SessionError::NoTimer),
            },
            Session::Watching { timer, shown } => if event is Received || event is TimedOut {
                let known = known_after(timer, event);
                let display = Display::of_timer(known@, now);
                if display_of(shown) == Some(display) {
                    &&& next == Session::Watching { timer: known, shown }
                    &&& action == SessionAction::ReceiveWithin(REFRESH_MILLIS)
                } else {
                    &&& next matches Session::Showing { timer: t, shown: s }
                    &&& t == known
                    &&& s@ == display
                    &&& action matches SessionAction::Print(output)
                    &&& output@ == display
                }
            } else {
                &&& next is Closing
                &&& action matches SessionAction::Print(output)
                &&& output@ == Display::of_error("connection to daemon closed"@)
            },
            Session::Showing { timer, shown } => if event is Done {
                &&& next == Session::Watching { timer, shown: Some(shown) }
                &&& action == SessionAction::ReceiveWithin(REFRESH_MILLIS)
            } else {
                ends(next, action, SessionError::NotPrinted)
            },
            Session::Closing => if event is Done {
                next is Ended && action is Finish
            } else {
                ends(next, action, SessionError::NotPrinted)
            },
            Session::Ended => next is Ended && action is Finish,
        }
    }

    /// Goes on now.
    pub fn step(self, config: &Config, event: SessionEvent) -> (next: (Session, SessionAction))
        ensures
            exists|now: Stamp| #[trigger]
                clock_can_read(now) && self.goes_on(event, now, next.0, next.1),
    {
        let now = Moment::now();
        proof {
            use_type_invariant(now);
            assert(clock_can_read(now@));
        }
        self.step_at(config, event, now)
    }

    /// Goes on at `now`.
    pub fn step_at(self, config: &Config, event: SessionEvent, now: Moment) -> (next: (
        Session,
        SessionAction,
    ))
        ensures
            self.goes_on(event, now@, next.0, next.1),
    {
        match self {
            Session::Connecting(message) => match event {
                SessionEvent::Done => (Session::Sending(message), SessionAction::Send(message)),
                _ => fail(SessionError::NotConnected),
            },
            Session::Sending(message) => match event {
                SessionEvent::Done => (Session::AwaitingAck(message), SessionAction::Receive),
                _ => match message {
                    ClientMessage::Watch => fail(SessionError::WatchNotSent),
                    _ => fail(SessionError::UpdateNotSent),
                },
            },
            Session::AwaitingAck(message) => {
                let reply = match event {
                    SessionEvent::Received(reply) => Some(reply),
                    _ => None,
                };
                match Connection::expect_ack(reply) {
                    Ok(_) => match message {
                        ClientMessage::Watch => (Session::AwaitingTimer, SessionAction::Receive),
                        _ => (Session::Ended, SessionAction::Finish),
                    },
                    Err(error) => fail(SessionError::Ack(error)),
                }
            },
            Session::AwaitingTimer => match event {
                SessionEvent::Received(DaemonMessage::StateChange(timer)) => (
                    Session::Watching { timer, shown: None },
                    SessionAction::ReceiveWithin(REFRESH_MILLIS),
                ),
                SessionEvent::Received(_) => fail(SessionError::NotATimer),
                _ => fail(SessionError::NoTimer),
            },
            Session::Watching { timer, shown } => {
                let known = match event {
                    SessionEvent::Received(DaemonMessage::StateChange(changed)) => changed,
                    SessionEvent::Received(_) | SessionEvent::TimedOut => timer,
                    _ => {
                        let output = WaybarOutput::error("connection to daemon closed".to_string());
                        return (Session::Closing, SessionAction::Print(output));
                    },
                };
                let output = WaybarOutput::new(config, &known, now);
                let unchanged = match &shown {
                    Some(shown) => output.same(shown),
                    None => false,
                };
                if unchanged {
                    (
                        Session::Watching { timer: known, shown },
                        SessionAction::ReceiveWithin(REFRESH_MILLIS),
                    )
                } else {
                    (
                        Session::Showing { timer: known, shown: output.clone() },
                        SessionAction::Print(output),
                    )
                }
            },
            Session::Showing { timer, shown } => match event {
                SessionEvent::Done => (
                    Session::Watching { timer, shown: Some(shown) },
                    SessionAction::ReceiveWithin(REFRESH_MILLIS),
                ),
                _ => fail(SessionError::NotPrinted),
            },
            Session::Closing => match event {
                SessionEvent::Done => (Session::Ended, SessionAction::Finish),
                _ => fail(SessionError::NotPrinted),
            },
            Session::Ended => (Session::Ended, SessionAction::Finish),
        }
    }
}

/// The session ends with an error.
pub open spec fn ends(next: Session, action: SessionAction, error: SessionError) -> bool {
    next is Ended && action == SessionAction::Fail(error)
}

/// Ends the session with an error.
fn fail(error: SessionError) -> (end: (Session, SessionAction))
    ensures
        ends(end.0, end.1, error),
{
    (Session::Ended, SessionAction::Fail(error))
}

/// What a client has on display, or is about to have.
pub open spec fn on_display(session: Session) -> Option<Display> {
    match session {
        Session::Watching { shown, .. } => display_of(shown),
        Session::Showing { shown, .. } => Some(shown@),
        _ => None,
    }
}

/// As long as the daemon is there, each look at the timer leaves it on display as it is then, and
/// what is displayed for that was not on display before.
pub proof fn law_display_is_current_and_not_repeated(
    timer: TimerState,
    shown: Option<WaybarOutput>,
    event: SessionEvent,
    now: Stamp,
    next: Session,
    action: SessionAction,
)
    requires
        event is Received || event is TimedOut,
        (Session::Watching { timer, shown }).goes_on(event, now, next, action),
    ensures
        on_display(next) == Some(Display::of_timer(known_after(timer, event)@, now)),
        action is Print <==> on_display(next) != display_of(shown),
        action matches SessionAction::Print(output) ==> on_display(next) == Some(output@),
{
}

/// Only a client that knows the timer displays anything: one that has connected, has had its
/// request acknowledged and has been told the timer.
pub proof fn law_nothing_is_displayed_before_the_timer_is_known(
    session: Session,
    event: SessionEvent,
    now: Stamp,
    next: Session,
    action: SessionAction,
)
    requires
        session.goes_on(event, now, next, action),
    ensures
        action is Print ==> session is Watching,
        next is Watching ==> session is Watching || session is Showing || (session is AwaitingTimer
            && event matches SessionEvent::Received(DaemonMessage::StateChange(_))),
        next is AwaitingTimer ==> session == Session::AwaitingAck(ClientMessage::Watch) && event
            == SessionEvent::Received(DaemonMessage::Ack),
{
}

/// A client that changes the timer ends without an error exactly if its message is acknowledged.
pub proof fn law_update_ends_well_with_its_ack(
    update: TimerUpdate,
    event: SessionEvent,
    now: Stamp,
    next: Session,
    action: SessionAction,
)
    requires
        Session::AwaitingAck(ClientMessage::Update(update)).goes_on(event, now, next, action),
    ensures
        next is Ended,
        action is Finish <==> event == SessionEvent::Received(DaemonMessage::Ack),
        action !is Finish ==> action is Fail,
{
}

/// A command has one request: to watch, or the update it was given. The daemon has none.
pub proof fn law_request_of_a_command(update: TimerUpdate)
    ensures
        Command::Daemon.request() is None,
        Command::Waybar.request() == Some(ClientMessage::Watch),
        Command::Update(update).request() == Some(ClientMessage::Update(update)),
{
}

/// What a client sends once it is connected is the request it began with, and what it then awaits
/// is the acknowledgement of that request.
pub proof fn law_request_is_sent(
    request: ClientMessage,
    connected_at: Stamp,
    sending: Session,
    send: SessionAction,
    sent_at: Stamp,
    waiting: Session,
    wait: SessionAction,
)
    requires
        Session::Connecting(request).goes_on(SessionEvent::Done, connected_at, sending, send),
        sending.goes_on(SessionEvent::Done, sent_at, waiting, wait),
    ensures
        send == SessionAction::Send(request),
        wait is Receive,
        waiting == Session::AwaitingAck(request),
{
}

/// Whatever a client is told to do: it sends the request of that command and nothing else.
pub proof fn law_command_sends_its_request(
    command: Command,
    connected_at: Stamp,
    sending: Session,
    send: SessionAction,
)
    requires
        command.request() matches Some(request) && Session::Connecting(request).goes_on(
            SessionEvent::Done,
            connected_at,
            sending,
            send,
        ),
    ensures
        match command {
            Command::Daemon => false,
            Command::Waybar => send == SessionAction::Send(ClientMessage::Watch),
            Command::Update(update) => send == SessionAction::Send(ClientMessage::Update(update)),
        },
{
}

/// Only a client that has just connected sends anything.
pub proof fn law_nothing_else_is_sent(
    session: Session,
    event: SessionEvent,
    now: Stamp,
    next: Session,
    action: SessionAction,
)
    requires
        session.goes_on(event, now, next, action),
    ensures
        action matches SessionAction::Send(message) ==> session == Session::Connecting(message)
            && event is Done,
        action !is Connect,
        action !is RunDaemon,
{
}

/// A reply is judged: an acknowledgement ends an update well and lets a watcher await the timer;
/// another message is an error that names it; and so is no reply.
pub proof fn law_reply_is_judged(
    request: ClientMessage,
    event: SessionEvent,
    now: Stamp,
    next: Session,
    action: SessionAction,
)
    requires
        Session::AwaitingAck(request).goes_on(event, now, next, action),
    ensures
        match event {
            SessionEvent::Received(DaemonMessage::Ack) => if request is Watch {
                next is AwaitingTimer && action is Receive
            } else {
                next is Ended && action is Finish
            },
            SessionEvent::Received(other) => next is Ended && action == SessionAction::Fail(
                SessionError::Ack(AckError::Unexpected(other)),
            ),
            _ => next is Ended && action == SessionAction::Fail(
                SessionError::Ack(AckError::NoReply),
            ),
        },
{
}

/// The first timer that a watcher is told is the one it knows, with nothing on display yet;
/// anything else is an error.
pub proof fn law_first_timer_is_known(
    event: SessionEvent,
    now: Stamp,
    next: Session,
    action: SessionAction,
)
    requires
        Session::AwaitingTimer.goes_on(event, now, next, action),
    ensures
        match event {
            SessionEvent::Received(DaemonMessage::StateChange(told)) => {
                &&& next matches Session::Watching { timer, shown }
                &&& timer == told
                &&& shown is None
            },
            SessionEvent::Received(_) => next is Ended && action == SessionAction::Fail(
                SessionError::NotATimer,
            ),
            _ => next is Ended && action == SessionAction::Fail(SessionError::NoTimer),
        },
{
}

/// A client that watches never waits longer than half a second for a message, whatever the timer,
/// before it looks at the timer again.
pub proof fn law_watcher_looks_twice_a_second(
    session: Session,
    event: SessionEvent,
    now: Stamp,
    next: Session,
    action: SessionAction,
)
    requires
        session.goes_on(event, now, next, action),
    ensures
        next is Watching <==> action == SessionAction::ReceiveWithin(500),
        action is ReceiveWithin ==> next is Watching,
        next is Showing || next is Closing <==> action is Print,
        next is Ended <==> action is Finish || action is Fail,
{
}

/// A watcher that looks at the timer goes by the timer that it was told last. What it displays
/// then shows that timer at that time, and it displays it exactly if it differs from what is on
/// display. It goes on with the timer it knows and with what it has displayed.
pub proof fn law_look_at_the_timer(
    timer: TimerState,
    shown: Option<WaybarOutput>,
    event: SessionEvent,
    now: Stamp,
    next: Session,
    action: SessionAction,
)
    requires
        event is Received || event is TimedOut,
        now.in_range(),
        timer.deadline matches Some(deadline) ==> deadline@.in_range(),
        event matches SessionEvent::Received(DaemonMessage::StateChange(told)) ==> (
        told.deadline matches Some(deadline) ==> deadline@.in_range()),
        (Session::Watching { timer, shown }).goes_on(event, now, next, action),
    ensures
        ({
            let known = match event {
                SessionEvent::Received(DaemonMessage::StateChange(told)) => told,
                _ => timer,
            };
            match next {
                Session::Watching { timer: kept, shown: on_display } => {
                    &&& kept == known
                    &&& on_display == shown
                    &&& shown matches Some(output) && shows(output, known, now)
                },
                Session::Showing { timer: kept, shown: displayed } => {
                    &&& kept == known
                    &&& action matches SessionAction::Print(output)
                    &&& shows(output, known, now)
                    &&& shows(displayed, known, now)
                    &&& same_output(output, displayed)
                    &&& shown matches Some(on_display) ==> !same_output(output, on_display)
                },
                _ => false,
            }
        }),
{
    let known = known_after(timer, event);
    match next {
        Session::Watching { shown: on_display, .. } => {
            law_display_tells_mode_and_time_left(on_display->0, known, now);
        },
        Session::Showing { shown: displayed, .. } => {
            law_display_tells_mode_and_time_left(displayed, known, now);
            match action {
                SessionAction::Print(output) => {
                    law_display_tells_mode_and_time_left(output, known, now);
                },
                _ => {},
            }
        },
        _ => {},
    }
}

/// The two outputs say the same in every field.
pub open spec fn same_output(first: WaybarOutput, second: WaybarOutput) -> bool {
    &&& first.text@ == second.text@
    &&& first.alt@ == second.alt@
    &&& first.tooltip@ == second.tooltip@
    &&& first.class@ == second.class@
    &&& first.percentage == second.percentage
}

/// What has been displayed is on display: a watcher goes on with it and with the timer it knows.
/// What cannot be displayed ends it with an error.
pub proof fn law_displayed_is_on_display(
    timer: TimerState,
    shown: WaybarOutput,
    event: SessionEvent,
    now: Stamp,
    next: Session,
    action: SessionAction,
)
    requires
        (Session::Showing { timer, shown }).goes_on(event, now, next, action),
    ensures
        event is Done ==> {
            &&& next matches Session::Watching { timer: kept, shown: on_display }
            &&& kept == timer
            &&& on_display == Some(shown)
        },
        event !is Done ==> next is Ended && action == SessionAction::Fail(SessionError::NotPrinted),
{
}

/// When the daemon is gone, a watcher says so on the display and then ends.
pub proof fn law_end_of_the_daemon_is_displayed(
    timer: TimerState,
    shown: Option<WaybarOutput>,
    event: SessionEvent,
    gone_at: Stamp,
    closing: Session,
    display: SessionAction,
    ended_at: Stamp,
    ended: Session,
    end: SessionAction,
)
    requires
        event is Failed || event is Done,
        (Session::Watching { timer, shown }).goes_on(event, gone_at, closing, display),
        closing.goes_on(SessionEvent::Done, ended_at, ended, end),
    ensures
        display matches SessionAction::Print(output) && shows_error(
            output,
            "connection to daemon closed"@,
        ),
        ended is Ended,
        end is Finish,
{
    match display {
        SessionAction::Print(output) => {
            law_display_of_an_error(output, "connection to daemon closed"@);
        },
        _ => {},
    }
}

/// What a client fails to do ends it with the error that belongs to it, and after the end nothing
/// happens any more.
pub proof fn law_failure_ends_the_client(
    session: Session,
    event: SessionEvent,
    now: Stamp,
    next: Session,
    action: SessionAction,
)
    requires
        session.goes_on(event, now, next, action),
        event !is Done,
    ensures
        session is Connecting ==> next is Ended && action == SessionAction::Fail(
            SessionError::NotConnected,
        ),
        session == Session::Sending(ClientMessage::Watch) ==> next is Ended && action
            == SessionAction::Fail(SessionError::WatchNotSent),
        session matches Session::Sending(message) && message !is Watch ==> next is Ended && action
            == SessionAction::Fail(SessionError::UpdateNotSent),
        session is Closing ==> next is Ended && action == SessionAction::Fail(
            SessionError::NotPrinted,
        ),
        session is Ended ==> next is Ended && action is Finish,
{
}

/// Each error has its words.
pub proof fn law_client_errors_in_words(message: DaemonMessage)
    ensures
        SessionError::NotConnected.words() == "failed to connect to socket"@,
        SessionError::WatchNotSent.words() == "failed to send watch message"@,
        SessionError::UpdateNotSent.words() == "failed to send update"@,
        SessionError::Ack(AckError::NoReply).words() == "failed to receive ACK"@,
        SessionError::Ack(AckError::Unexpected(message)).words() == "expected ACK from server"@,
        SessionError::NoTimer.words() == "failed to receive initial timer state"@,
        SessionError::NotATimer.words() == "expected next daemon message to be timer state"@,
        SessionError::NotPrinted.words() == "failed to serialize waybar output"@,
{
}

} // verus!
