//! What the operations promise: what comes out of a call, told by what goes into it.

use crate::args::{ascii, separator_after, Args, ArgsError, ConfigSource, ConfigStep};
use crate::args::{law_configuration_file, law_daemon_socket};
use crate::command::{
    law_end_of_the_daemon_is_displayed, law_look_at_the_timer, same_output, Command, Session,
    SessionAction, SessionError, SessionEvent,
};
use crate::config::{
    law_timeout_is_in_milliseconds, Config, DeviceChoice, NotificationConfig, SoundConfig,
};
use crate::connection::{
    header_of, law_length_reads_back, length_bytes, length_value, AckError, Connection, EndOfStream,
};
use crate::cycle::{follows, obeys, runs_out, same_timer};
use crate::daemon::{
    announced, Alert, Daemon, Effects, SocketAction, SocketProbe, StartError, Turn, Wait, Wake,
};
use crate::message::{ClientMessage, DaemonMessage};
use crate::path::{clone_path, law_join_puts_one_separator, UnixPath};
use crate::serving::{Service, ServiceAction, ServiceEvent};
use crate::text::{
    format_clock, is_number, law_clock_face_tells_the_seconds, law_decimal_is_the_number,
    push_decimal, reads_as,
};
use crate::time::{Moment, Period, Span, Stamp};
use crate::timer::{clock_can_read, DeadlineOverflow, TimerMode, TimerState, TimerUpdate};
use crate::waybar::{
    law_display_of_an_error, law_display_tells_mode_and_time_left, shows, shows_error,
    WaybarOutput,
};
use vstd::prelude::*;

verus! {

/// A client begins by connecting. Once it is connected it sends the request of its command, the
/// very update that it was given or a request to watch; and then it awaits the acknowledgement of
/// that. The daemon sends nothing.
pub proof fn law_client_sends_its_request(
    command: Command,
    config: Config,
    begin: (Session, SessionAction),
    sending: (Session, SessionAction),
    waiting: (Session, SessionAction),
)
    requires
        call_ensures(Command::run, (command,), begin),
        command !is Daemon ==> {
            &&& call_ensures(Session::step, (begin.0, &config, SessionEvent::Done), sending)
            &&& call_ensures(Session::step, (sending.0, &config, SessionEvent::Done), waiting)
        },
    ensures
        match command {
            Command::Daemon => begin == (Session::Ended, SessionAction::RunDaemon),
            Command::Waybar => {
                &&& begin.1 is Connect
                &&& sending.1 == SessionAction::Send(ClientMessage::Watch)
                &&& waiting == (
                    Session::AwaitingAck(ClientMessage::Watch),
                    SessionAction::Receive,
                )
            },
            Command::Update(update) => {
                &&& begin.1 is Connect
                &&& sending.1 == SessionAction::Send(ClientMessage::Update(update))
                &&& waiting == (
                    Session::AwaitingAck(ClientMessage::Update(update)),
                    SessionAction::Receive,
                )
            },
        },
{
}

/// The same holds at any time that the clock is said to read.
pub proof fn law_client_sends_its_request_at(
    command: Command,
    config: Config,
    begin: (Session, SessionAction),
    connected_at: Moment,
    sending: (Session, SessionAction),
    sent_at: Moment,
    waiting: (Session, SessionAction),
)
    requires
        command !is Daemon,
        call_ensures(Command::run, (command,), begin),
        call_ensures(
            Session::step_at,
            (begin.0, &config, SessionEvent::Done, connected_at),
            sending,
        ),
        call_ensures(Session::step_at, (sending.0, &config, SessionEvent::Done, sent_at), waiting),
    ensures
        command is Waybar ==> sending.1 == SessionAction::Send(ClientMessage::Watch),
        command matches Command::Update(update) ==> sending.1 == SessionAction::Send(
            ClientMessage::Update(update),
        ),
        sending.1 matches SessionAction::Send(sent) && waiting == (
            Session::AwaitingAck(sent),
            SessionAction::Receive,
        ),
{
}

/// The reply to a request is judged: its acknowledgement ends an update well and lets a watcher
/// await the timer; any other message is an error that names it; and so is none.
pub proof fn law_client_judges_the_reply(
    request: ClientMessage,
    config: Config,
    event: SessionEvent,
    now: Moment,
    next: (Session, SessionAction),
)
    requires
        call_ensures(
            Session::step_at,
            (Session::AwaitingAck(request), &config, event, now),
            next,
        ),
    ensures
        match event {
            SessionEvent::Received(DaemonMessage::Ack) => if request is Watch {
                next == (Session::AwaitingTimer, SessionAction::Receive)
            } else {
                next == (Session::Ended, SessionAction::Finish)
            },
            SessionEvent::Received(other) => next == (
                Session::Ended,
                SessionAction::Fail(SessionError::Ack(AckError::Unexpected(other))),
            ),
            _ => next == (
                Session::Ended,
                SessionAction::Fail(SessionError::Ack(AckError::NoReply)),
            ),
        },
{
}

/// Whatever a client does next, and whatever the timer: if it goes on to watch, it waits for a
/// message, and for half a second at most; and it waits so only then.
pub proof fn law_client_looks_twice_a_second(
    session: Session,
    config: Config,
    event: SessionEvent,
    now: Moment,
    next: (Session, SessionAction),
    next_now: (Session, SessionAction),
)
    requires
        call_ensures(Session::step_at, (session, &config, event, now), next),
        call_ensures(Session::step, (session, &config, event), next_now),
    ensures
        next.0 is Watching <==> next.1 == SessionAction::ReceiveWithin(500),
        next.1 is ReceiveWithin ==> next.0 is Watching,
        next_now.0 is Watching <==> next_now.1 == SessionAction::ReceiveWithin(500),
        next_now.1 is ReceiveWithin ==> next_now.0 is Watching,
{
}

/// A watcher is told the timer, and from then on keeps the one it was told last until it is told
/// another: neither a look at it nor what is displayed changes it.
pub proof fn law_client_keeps_the_timer(
    session: Session,
    config: Config,
    event: SessionEvent,
    now: Moment,
    next: (Session, SessionAction),
)
    requires
        call_ensures(Session::step_at, (session, &config, event, now), next),
    ensures
        match (session, event, next.0) {
            (
                Session::AwaitingTimer | Session::Watching { .. },
                SessionEvent::Received(DaemonMessage::StateChange(told)),
                Session::Watching { timer, .. } | Session::Showing { timer, .. },
            ) => timer == told,
            (
                Session::AwaitingTimer | Session::Watching { .. },
                SessionEvent::Received(DaemonMessage::StateChange(_)),
                _,
            ) => false,
            (
                Session::Watching { timer: known, .. } | Session::Showing { timer: known, .. },
                _,
                Session::Watching { timer, .. } | Session::Showing { timer, .. },
            ) => timer == known,
            _ => next.0 !is Watching && next.0 !is Showing,
        },
{
}

/// A look at the timer leaves on display what shows the timer that is known, at that time; it is
/// displayed exactly if something else was on display.
pub proof fn law_client_displays_the_timer(
    timer: TimerState,
    shown: Option<WaybarOutput>,
    config: Config,
    event: SessionEvent,
    now: Moment,
    next: (Session, SessionAction),
)
    requires
        event is Received || event is TimedOut,
        now@.in_range(),
        timer.deadline matches Some(deadline) ==> deadline@.in_range(),
        event matches SessionEvent::Received(DaemonMessage::StateChange(told)) ==> (
        told.deadline matches Some(deadline) ==> deadline@.in_range()),
        call_ensures(
            Session::step_at,
            (Session::Watching { timer, shown }, &config, event, now),
            next,
        ),
    ensures
        match next.0 {
            Session::Watching { timer: known, shown: on_display } => {
                &&& on_display == shown
                &&& shown matches Some(output) && shows(output, known, now@)
            },
            Session::Showing { timer: known, shown: displayed } => {
                &&& next.1 matches SessionAction::Print(output)
                &&& shows(output, known, now@)
                &&& same_output(output, displayed)
                &&& shown matches Some(on_display) ==> !same_output(output, on_display)
            },
            _ => false,
        },
{
    law_look_at_the_timer(timer, shown, event, now@, next.0, next.1);
}

/// What was displayed is what a watcher takes to be on display.
pub proof fn law_client_knows_what_is_on_display(
    timer: TimerState,
    shown: WaybarOutput,
    config: Config,
    now: Moment,
    next: (Session, SessionAction),
)
    requires
        call_ensures(
            Session::step_at,
            (Session::Showing { timer, shown }, &config, SessionEvent::Done, now),
            next,
        ),
    ensures
        next.0 == (Session::Watching { timer, shown: Some(shown) }),
{
}

/// What cannot be done ends a client, with the error that belongs to it; but where a watcher loses
/// the daemon it displays so, and then ends without one.
pub proof fn law_client_that_fails_ends(
    session: Session,
    config: Config,
    now: Moment,
    next: (Session, SessionAction),
    later: Moment,
    end: (Session, SessionAction),
)
    requires
        call_ensures(Session::step_at, (session, &config, SessionEvent::Failed, now), next),
        call_ensures(Session::step_at, (next.0, &config, SessionEvent::Done, later), end),
    ensures
        match session {
            Session::Connecting(_) => next.1 == SessionAction::Fail(SessionError::NotConnected),
            Session::Sending(ClientMessage::Watch) => next.1 == SessionAction::Fail(
                SessionError::WatchNotSent,
            ),
            Session::Sending(_) => next.1 == SessionAction::Fail(SessionError::UpdateNotSent),
            Session::AwaitingAck(_) => next.1 == SessionAction::Fail(
                SessionError::Ack(AckError::NoReply),
            ),
            Session::AwaitingTimer => next.1 == SessionAction::Fail(SessionError::NoTimer),
            Session::Watching { .. } => next.1 matches SessionAction::Print(output) && shows_error(
                output,
                "connection to daemon closed"@,
            ),
            Session::Showing { .. } | Session::Closing => next.1 == SessionAction::Fail(
                SessionError::NotPrinted,
            ),
            Session::Ended => next.1 is Finish,
        },
        session !is Watching ==> next.0 is Ended,
        end == (Session::Ended, SessionAction::Finish),
{
    match session {
        Session::Watching { timer, shown } => law_end_of_the_daemon_is_displayed(
            timer,
            shown,
            SessionEvent::Failed,
            now@,
            next.0,
            next.1,
            later@,
            end.0,
            end.1,
        ),
        _ => {},
    }
}

/// An output names the mode of the timer and tells the time that is left of it, in every mode.
pub proof fn law_output_shows_the_timer(
    config: Config,
    timer: TimerState,
    now: Moment,
    output: WaybarOutput,
)
    requires
        call_ensures(WaybarOutput::new, (&config, &timer, now), output),
        now@.in_range(),
        timer.deadline matches Some(deadline) ==> deadline@.in_range(),
    ensures
        shows(output, timer, now@),
{
    law_display_tells_mode_and_time_left(output, timer, now@);
}

/// An output for an error is its message.
pub proof fn law_output_shows_the_error(message: String, output: WaybarOutput)
    requires
        call_ensures(WaybarOutput::error, (message,), output),
    ensures
        shows_error(output, message@),
{
    law_display_of_an_error(output, message@);
}

/// Two outputs look the same exactly if they agree in every field, and a copy looks the same.
pub proof fn law_outputs_are_compared(
    first: WaybarOutput,
    second: WaybarOutput,
    same: bool,
    copy: WaybarOutput,
)
    requires
        call_ensures(WaybarOutput::same, (&first, &second), same),
        call_ensures(<WaybarOutput as Clone>::clone, (&first,), copy),
    ensures
        same <==> same_output(first, second),
        same_output(copy, first),
{
}

/// A daemon starts where nobody answers, with an unused timer that counts as told, and removes a
/// socket exactly if one was left behind.
pub proof fn law_daemon_starts(
    config: Config,
    probe: SocketProbe,
    start: Result<(Daemon, SocketAction), StartError>,
)
    requires
        call_ensures(Daemon::run, (config, probe), start),
    ensures
        probe is Connected <==> start == Err::<(Daemon, SocketAction), StartError>(
            StartError::AlreadyRunning,
        ),
        probe is OtherError <==> start == Err::<(Daemon, SocketAction), StartError>(
            StartError::ProbeFailed,
        ),
        start matches Ok((daemon, action)) ==> {
            &&& action is RemoveThenBind <==> probe is Refused
            &&& daemon.config == config
            &&& daemon.timer.mode is Pestering
            &&& daemon.timer.deadline is None
            &&& daemon.timer.short_breaks == config.timer.short_breaks
            &&& same_timer(daemon.old_timer, daemon.timer)
        },
{
}

/// The daemon waits for a message if there is no deadline, not at all once it has passed, and
/// otherwise for the time up to it.
pub proof fn law_daemon_waits(daemon: Daemon, now: Moment, wait: Wait)
    requires
        0 <= now@.nanos < 1_000_000_000,
        daemon.timer.deadline matches Some(deadline) ==> 0 <= deadline@.nanos < 1_000_000_000,
        call_ensures(Daemon::wait_at, (&daemon, now), wait),
    ensures
        match daemon.timer.deadline {
            None => wait is ForMessage,
            Some(deadline) => {
                let left = (deadline@.secs - now@.secs) * 1_000_000_000 + deadline@.nanos
                    - now@.nanos;
                if left < 0 {
                    wait is Elapsed
                } else {
                    wait matches Wait::UntilDeadline(period) && period@ == left
                }
            },
        },
{
}

/// By the clock, whatever it reads: the daemon waits for a message exactly if there is no deadline,
/// waits otherwise for just as long as it takes to get there, and not at all if it lies behind.
pub proof fn law_daemon_waits_by_the_clock(daemon: Daemon, wait: Wait)
    requires
        daemon.timer.deadline matches Some(deadline) ==> 0 <= deadline@.nanos < 1_000_000_000,
        call_ensures(Daemon::wait, (&daemon,), wait),
    ensures
        wait is ForMessage <==> daemon.timer.deadline is None,
        daemon.timer.deadline matches Some(deadline) ==> exists|now: Stamp| #[trigger]
            clock_can_read(now) && {
                let left = (deadline@.secs - now.secs) * 1_000_000_000 + deadline@.nanos
                    - now.nanos;
                if left < 0 {
                    wait is Elapsed
                } else {
                    wait matches Wait::UntilDeadline(period) && period@ == left
                }
            },
{
}

/// A turn that the deadline ends leaves the timer where the end of its mode leads, tells it and
/// announces the new mode.
pub proof fn law_turn_at_the_deadline(daemon: &mut Daemon, now: Moment, effects: Effects)
    requires
        now@.in_range(),
        call_ensures(
            Daemon::turn_at,
            (daemon, Wake::Deadline, now),
            Ok::<Turn, DeadlineOverflow>(Turn::Go(effects)),
        ),
    ensures
        follows(old(daemon).timer, old(daemon).config.timer, now@, final(daemon).timer),
        final(daemon).config == old(daemon).config,
        effects.reply is None,
{
}

/// The same holds by the clock, whatever it reads.
pub proof fn law_turn_at_the_deadline_by_the_clock(daemon: &mut Daemon, effects: Effects)
    requires
        call_ensures(
            Daemon::turn,
            (daemon, Wake::Deadline),
            Ok::<Turn, DeadlineOverflow>(Turn::Go(effects)),
        ),
    ensures
        exists|now: Stamp| #[trigger]
            clock_can_read(now) && follows(
                old(daemon).timer,
                old(daemon).config.timer,
                now,
                final(daemon).timer,
            ),
        final(daemon).config == old(daemon).config,
        effects.reply is None,
{
}

/// A turn that an update ends leaves the timer as the update says.
pub proof fn law_turn_on_an_update(
    daemon: &mut Daemon,
    update: TimerUpdate,
    now: Moment,
    effects: Effects,
)
    requires
        now@.in_range(),
        call_ensures(
            Daemon::turn_at,
            (daemon, Wake::Message(ClientMessage::Update(update)), now),
            Ok::<Turn, DeadlineOverflow>(Turn::Go(effects)),
        ),
    ensures
        obeys(old(daemon).timer, old(daemon).config.timer, update, now@, final(daemon).timer),
        final(daemon).config == old(daemon).config,
        effects.reply is None,
{
}

/// By the clock: a turn that an update ends leaves the timer as the update says.
pub proof fn law_turn_on_an_update_by_the_clock(
    daemon: &mut Daemon,
    update: TimerUpdate,
    effects: Effects,
)
    requires
        call_ensures(
            Daemon::turn,
            (daemon, Wake::Message(ClientMessage::Update(update))),
            Ok::<Turn, DeadlineOverflow>(Turn::Go(effects)),
        ),
    ensures
        exists|now: Stamp| #[trigger]
            clock_can_read(now) && obeys(
                old(daemon).timer,
                old(daemon).config.timer,
                update,
                now,
                final(daemon).timer,
            ),
{
}

/// Whatever ends a turn: the timer that comes out of it is told exactly if it is not the one that
/// was told last, and then is the one that was told last; and its mode is announced, as it is
/// configured, exactly if it is not the mode that was told last.
pub proof fn law_turn_tells_what_is_new(
    daemon: &mut Daemon,
    wake: Wake,
    now: Moment,
    effects: Effects,
)
    requires
        call_ensures(
            Daemon::turn_at,
            (daemon, wake, now),
            Ok::<Turn, DeadlineOverflow>(Turn::Go(effects)),
        ),
    ensures
        match effects.broadcast {
            Some(told) => !same_timer(final(daemon).timer, old(daemon).old_timer) && same_timer(
                told,
                final(daemon).timer,
            ),
            None => same_timer(final(daemon).timer, old(daemon).old_timer),
        },
        same_timer(final(daemon).old_timer, final(daemon).timer),
        match effects.alert {
            Some(alert) => final(daemon).timer.mode != old(daemon).old_timer.mode && announced(
                old(daemon).config,
                final(daemon).timer.mode,
                alert,
            ),
            None => final(daemon).timer.mode == old(daemon).old_timer.mode,
        },
        wake == Wake::Message(ClientMessage::Ping) ==> effects.reply == Some(old(daemon).timer),
        wake != Wake::Message(ClientMessage::Ping) ==> effects.reply is None,
{
}

/// By the clock, whatever it reads and whatever ends the turn: what is new is told, and a new mode
/// is announced as it is configured.
pub proof fn law_turn_tells_what_is_new_by_the_clock(
    daemon: &mut Daemon,
    wake: Wake,
    effects: Effects,
)
    requires
        call_ensures(
            Daemon::turn,
            (daemon, wake),
            Ok::<Turn, DeadlineOverflow>(Turn::Go(effects)),
        ),
    ensures
        effects.broadcast is Some <==> !same_timer(final(daemon).timer, old(daemon).old_timer),
        effects.broadcast matches Some(told) ==> same_timer(told, final(daemon).timer),
        same_timer(final(daemon).old_timer, final(daemon).timer),
        match effects.alert {
            Some(alert) => final(daemon).timer.mode != old(daemon).old_timer.mode && announced(
                old(daemon).config,
                final(daemon).timer.mode,
                alert,
            ),
            None => final(daemon).timer.mode == old(daemon).old_timer.mode,
        },
{
}

/// A turn stops the daemon exactly if nobody is left, and changes nothing if it stops or fails it.
pub proof fn law_turn_stops_or_fails(
    daemon: &mut Daemon,
    wake: Wake,
    now: Moment,
    result: Result<Turn, DeadlineOverflow>,
)
    requires
        call_ensures(Daemon::turn_at, (daemon, wake, now), result),
        old(daemon).timer.deadline matches Some(deadline) ==> deadline@.in_range(),
    ensures
        result == Ok::<Turn, DeadlineOverflow>(Turn::Stop) <==> wake is Closed,
        wake is Closed || result is Err ==> *final(daemon) == *old(daemon),
{
}

/// A mode is announced as it is configured.
pub proof fn law_alert_is_as_configured(config: Config, timer: TimerState, alert: Alert)
    requires
        call_ensures(Daemon::on_state_change, (&config, &timer), alert),
    ensures
        announced(config, timer.mode, alert),
{
}

/// An update that reaches the timer is carried out and not answered; a ping is answered with the
/// timer; and what is not an update changes nothing.
pub proof fn law_message_reaches_the_timer(
    config: &mut Config,
    timer: &mut TimerState,
    message: ClientMessage,
    now: Moment,
    reply: Option<TimerState>,
)
    requires
        now@.in_range(),
        call_ensures(
            Daemon::on_message_at,
            (config, timer, message, now),
            Ok::<Option<TimerState>, DeadlineOverflow>(reply),
        ),
    ensures
        *final(config) == *old(config),
        message matches ClientMessage::Update(update) ==> obeys(
            *old(timer),
            old(config).timer,
            update,
            now@,
            *final(timer),
        ),
        message !is Update ==> same_timer(*old(timer), *final(timer)),
        reply == (if message is Ping {
            Some(*old(timer))
        } else {
            None
        }),
{
}

/// The end of a mode leads on, and an update is obeyed.
pub proof fn law_timer_moves(
    ended: &mut TimerState,
    updated: &mut TimerState,
    config: Config,
    update: TimerUpdate,
    now: Moment,
)
    requires
        now@.in_range(),
        call_ensures(
            TimerState::on_deadline_at,
            (ended, &config, now),
            Ok::<(), DeadlineOverflow>(()),
        ),
        call_ensures(
            TimerState::on_update_at,
            (updated, &config, update, now),
            Ok::<(), DeadlineOverflow>(()),
        ),
    ensures
        follows(*old(ended), config.timer, now@, *final(ended)),
        obeys(*old(updated), config.timer, update, now@, *final(updated)),
{
}

/// By the clock, whatever it reads: the end of a mode leads on, and an update is obeyed.
pub proof fn law_timer_moves_by_the_clock(
    ended: &mut TimerState,
    updated: &mut TimerState,
    config: Config,
    update: TimerUpdate,
)
    requires
        call_ensures(
            TimerState::on_deadline,
            (ended, &config),
            Ok::<(), DeadlineOverflow>(()),
        ),
        call_ensures(
            TimerState::on_update,
            (updated, &config, update),
            Ok::<(), DeadlineOverflow>(()),
        ),
    ensures
        exists|now: Stamp| #[trigger]
            clock_can_read(now) && follows(*old(ended), config.timer, now, *final(ended)),
        exists|now: Stamp| #[trigger]
            clock_can_read(now) && obeys(*old(updated), config.timer, update, now, *final(updated)),
{
}

/// The end of a mode and an update fail exactly where the new deadline would not be in the
/// calendar, and then change nothing.
pub proof fn law_timer_stays_within_the_calendar(
    ended: &mut TimerState,
    end: Result<(), DeadlineOverflow>,
    updated: &mut TimerState,
    update: TimerUpdate,
    done: Result<(), DeadlineOverflow>,
    config: Config,
    now: Moment,
)
    requires
        now@.in_range(),
        old(updated).deadline matches Some(deadline) ==> deadline@.in_range(),
        call_ensures(TimerState::on_deadline_at, (ended, &config, now), end),
        call_ensures(TimerState::on_update_at, (updated, &config, update, now), done),
    ensures
        end is Err <==> match old(ended).mode {
            TimerMode::Snoozing => false,
            TimerMode::Focus => runs_out(
                now@,
                if old(ended).short_breaks > 0 {
                    config.timer.short_break_duration@
                } else {
                    config.timer.long_break_duration@
                },
            ),
            _ => runs_out(now@, config.timer.focus_duration@),
        },
        end is Err ==> *final(ended) == *old(ended),
        update is Skip && *old(updated) == *old(ended) ==> (done is Err <==> end is Err),
        update is Reset ==> done is Ok,
        update matches TimerUpdate::Snooze { time } ==> (done is Err <==> match (
            old(updated).mode,
            old(updated).deadline,
        ) {
            (TimerMode::Snoozing, Some(deadline)) => runs_out(deadline@, time@),
            (TimerMode::Snoozing | TimerMode::Pestering, _) => runs_out(now@, time@),
            _ => false,
        }),
        done is Err ==> *final(updated) == *old(updated),
{
}

/// A new timer pesters and has all its short breaks. Two timers are told apart by their mode, their
/// deadline and their short breaks.
pub proof fn law_timers_are_made_and_compared(
    config: Config,
    timer: TimerState,
    other: TimerState,
    same: bool,
)
    requires
        call_ensures(TimerState::new, (&config,), timer),
        call_ensures(TimerState::same, (&timer, &other), same),
    ensures
        timer.mode is Pestering,
        timer.deadline is None,
        timer.short_breaks == config.timer.short_breaks,
        same <==> same_timer(timer, other),
{
}

/// Each mode has its name.
pub proof fn law_mode_has_its_name(mode: TimerMode, name: String)
    requires
        call_ensures(TimerMode::to_string, (&mode,), name),
    ensures
        name@ == (match mode {
            TimerMode::Pestering => "Pestering"@,
            TimerMode::Snoozing => "Snoozing"@,
            TimerMode::ShortBreak => "Short break"@,
            TimerMode::LongBreak => "Long break"@,
            TimerMode::Focus => "Focus"@,
        }),
{
}

/// A message of a client is acknowledged; then a ping is done with, a request to watch becomes a
/// ping to the daemon and after that a subscription, and anything else is handed to the daemon.
pub proof fn law_service_of_a_message(
    message: ClientMessage,
    acknowledging: (Service, ServiceAction),
    acting: (Service, ServiceAction),
    next: (Service, ServiceAction),
)
    requires
        call_ensures(
            Daemon::on_client,
            (Service::Listening, ServiceEvent::Received(message)),
            acknowledging,
        ),
        call_ensures(Daemon::on_client, (acknowledging.0, ServiceEvent::Done), acting),
        call_ensures(Daemon::on_client, (acting.0, ServiceEvent::Done), next),
    ensures
        acknowledging.1 == ServiceAction::Send(DaemonMessage::Ack),
        match message {
            ClientMessage::Ping => acting == (Service::Listening, ServiceAction::Receive),
            ClientMessage::Watch => {
                &&& acting.1 == ServiceAction::Relay(ClientMessage::Ping)
                &&& next == (Service::Watching, ServiceAction::Subscribe)
            },
            _ => {
                &&& acting.1 == ServiceAction::Relay(message)
                &&& next == (Service::Listening, ServiceAction::Receive)
            },
        },
{
}

/// A client that watches is told a change, and then the next one is awaited.
pub proof fn law_service_of_a_watcher(
    timer: TimerState,
    telling: (Service, ServiceAction),
    next: (Service, ServiceAction),
)
    requires
        call_ensures(
            Daemon::on_client,
            (Service::Watching, ServiceEvent::Changed(timer)),
            telling,
        ),
        call_ensures(Daemon::on_client, (telling.0, ServiceEvent::Done), next),
    ensures
        telling.1 == ServiceAction::Send(DaemonMessage::StateChange(timer)),
        next == (Service::Watching, ServiceAction::AwaitChange),
{
}

/// Where the configuration comes from: nowhere for a debug build; otherwise from the file that is
/// given, or else from `pomidor/pomidor.toml` in the user's directory.
pub proof fn law_configuration_is_found(
    args: Args,
    debug: bool,
    config_dir: Option<UnixPath>,
    source: Result<ConfigSource, ArgsError>,
)
    requires
        call_ensures(Args::load_config_in, (&args, debug, config_dir), source),
    ensures
        debug ==> source == Ok::<ConfigSource, ArgsError>(ConfigSource::Builtin),
        !debug ==> match (args.config, config_dir) {
            (Some(given), _) => source matches Ok(ConfigSource::File(path)) && path.bytes@
                == given.bytes@,
            (None, Some(dir)) => source matches Ok(ConfigSource::File(path)) && path.bytes@
                == dir.bytes@ + ascii(separator_after(dir.bytes@)) + ascii(
                "pomidor/pomidor.toml"@,
            ),
            (None, None) => source == Err::<ConfigSource, ArgsError>(
                ArgsError::NoConfigDirectory,
            ),
        },
{
    law_configuration_file(
        args,
        debug,
        match config_dir {
            Some(dir) => Some(dir.bytes@),
            None => None,
        },
        source,
    );
}

/// Where the socket is: at the path that is given, or else in the user's directory, under a name
/// that tells a debug build from a release build.
pub proof fn law_socket_is_found(
    args: Args,
    debug: bool,
    runtime_dir: Option<UnixPath>,
    socket: Result<UnixPath, ArgsError>,
)
    requires
        call_ensures(Args::find_socket_in, (&args, debug, runtime_dir), socket),
    ensures
        match (args.socket, runtime_dir) {
            (Some(given), _) => socket matches Ok(path) && path.bytes@ == given.bytes@,
            (None, Some(dir)) => socket matches Ok(path) && path.bytes@ == dir.bytes@ + ascii(
                separator_after(dir.bytes@),
            ) + ascii(if debug { "pomidor-debug.sock"@ } else { "pomidor.sock"@ }),
            (None, None) => socket == Err::<UnixPath, ArgsError>(ArgsError::NoSocketDirectory),
        },
{
    law_daemon_socket(
        args,
        debug,
        match runtime_dir {
            Some(dir) => Some(dir.bytes@),
            None => None,
        },
        socket,
    );
}

/// A configuration file that is there is read. One that is not is written, and its directory is
/// created first exactly if that is not there either.
pub proof fn law_configuration_is_read_or_written(
    file_exists: bool,
    parent_exists: bool,
    step: ConfigStep,
)
    requires
        call_ensures(Args::open_config, (file_exists, parent_exists), step),
    ensures
        step is Read <==> file_exists,
        step matches ConfigStep::Write { create_parent } ==> (create_parent <==> !parent_exists),
{
}

/// A path is joined with one separator, where it needs one; a copy of a path is the same path.
pub proof fn law_paths_are_joined_and_copied(
    dir: UnixPath,
    name: &str,
    path: UnixPath,
    given: Option<UnixPath>,
    copy: Option<UnixPath>,
)
    requires
        call_ensures(UnixPath::join, (&dir, name), path),
        call_ensures(clone_path, (&given,), copy),
    ensures
        ({
            let bytes = vstd::utf8::encode_utf8(name@);
            path.bytes@ == (if bytes.len() > 0 && bytes[0] == 47 {
                bytes
            } else if dir.bytes@.len() == 0 || dir.bytes@[dir.bytes@.len() - 1] == 47 {
                dir.bytes@ + bytes
            } else {
                dir.bytes@ + seq![47u8] + bytes
            })
        }),
        match (given, copy) {
            (None, None) => true,
            (Some(given), Some(copy)) => given.bytes@ == copy.bytes@,
            _ => false,
        },
{
    law_join_puts_one_separator(dir.bytes@, vstd::utf8::encode_utf8(name@));
}

/// A connection reads the four bytes of a length, and then as many bytes as those that another end
/// has sent for a message of that length.
pub proof fn law_message_crosses_a_connection(
    payload: Vec<u8>,
    connection: Connection,
    header: Vec<u8>,
    wanted: usize,
    reading: &mut Connection,
    none: Option<Vec<u8>>,
)
    requires
        payload@.len() < 4_294_967_296,
        call_ensures(Connection::new, (), connection),
        call_ensures(Connection::header, (payload@.len() as usize,), header),
        call_ensures(Connection::wanted, (&connection,), wanted),
        *old(reading) == connection,
        call_ensures(Connection::on_bytes, (reading, header), none),
    ensures
        header@.len() == 4,
        wanted == 4,
        none is None,
        *final(reading) == Connection::Payload(payload@.len() as u32),
{
    let n = payload@.len();
    assert(header_of(n) == length_bytes(n));
    assert(header@ == length_bytes(n));
    law_length_reads_back(n);
    assert(length_value(header@) == n);
}

/// The bytes of a message come out as they came in, and a length is read next.
pub proof fn law_message_comes_out(
    length: u32,
    bytes: Vec<u8>,
    wanted: usize,
    reading: &mut Connection,
    payload: Option<Vec<u8>>,
)
    requires
        *old(reading) == Connection::Payload(length),
        call_ensures(Connection::wanted, (&Connection::Payload(length),), wanted),
        bytes@.len() == wanted,
        call_ensures(Connection::on_bytes, (reading, bytes), payload),
    ensures
        wanted == length,
        payload matches Some(payload) && payload@ == bytes@,
        *final(reading) == Connection::Length,
{
}

/// An end of the bytes between two messages means that the other end has closed, and one inside of
/// a message that it is cut off.
pub proof fn law_end_of_the_bytes(connection: Connection, end: EndOfStream)
    requires
        call_ensures(Connection::on_end, (&connection,), end),
    ensures
        end is Closed <==> connection is Length,
        end is Truncated <==> connection is Payload,
{
}

/// Only an acknowledgement is one.
pub proof fn law_acknowledgement_is_expected(
    reply: Option<DaemonMessage>,
    result: Result<(), AckError>,
)
    requires
        call_ensures(Connection::expect_ack, (reply,), result),
    ensures
        result is Ok <==> reply == Some(DaemonMessage::Ack),
        result == Err::<(), AckError>(AckError::NoReply) <==> reply is None,
        result matches Err(AckError::Unexpected(other)) ==> reply == Some(other),
{
}

/// A clock time tells its seconds.
pub proof fn law_clock_tells_the_seconds(secs: u64, text: String)
    requires
        call_ensures(format_clock, (secs,), text),
    ensures
        reads_as(text@, secs as int),
{
    law_clock_face_tells_the_seconds(secs as nat);
}

/// A number that is appended stands after what was there, in decimal.
pub proof fn law_number_is_appended(out: &mut String, n: u64)
    requires
        call_ensures(push_decimal, (out, n), ()),
    ensures
        exists|number: Seq<char>| #[trigger]
            is_number(number, n as nat) && final(out)@ == old(out)@ + number,
{
    law_decimal_is_the_number(n as nat);
}

/// What is said in a mode is the message that is configured for it.
pub proof fn law_message_of_a_mode(config: Config, mode: TimerMode, message: Option<&String>)
    requires
        call_ensures(
            NotificationConfig::for_mode,
            (&config.notification, mode),
            message,
        ),
    ensures
        ({
            let configured = match mode {
                TimerMode::Pestering => config.notification.pestering,
                TimerMode::Snoozing => config.notification.snoozing,
                TimerMode::ShortBreak => config.notification.short_break,
                TimerMode::LongBreak => config.notification.long_break,
                TimerMode::Focus => config.notification.focus,
            };
            match (message, configured) {
                (None, None) => true,
                (Some(said), Some(text)) => said@ == text@,
                _ => false,
            }
        }),
{
}

/// A notification is shown as long as is configured, in whole milliseconds of which the lowest 32
/// bits count, or as long as the desktop likes.
pub proof fn law_notification_is_shown_as_long_as_configured(
    config: NotificationConfig,
    millis: i32,
)
    requires
        call_ensures(NotificationConfig::expire_timeout, (&config,), millis),
    ensures
        match config.timeout {
            None => millis == -1,
            Some(timeout) => {
                let configured = timeout@ as int / 1_000_000;
                &&& (configured - millis) % 4_294_967_296 == 0
                &&& configured <= 2_147_483_647 ==> millis == configured
            },
        },
{
    law_timeout_is_in_milliseconds(config);
}

/// What is configured where nothing is said.
pub proof fn law_default_configuration(config: Config)
    requires
        call_ensures(<Config as Default>::default, (), config),
    ensures
        config.timer.short_break_duration@ == 5 * 60 * 1_000_000_000,
        config.timer.long_break_duration@ == 30 * 60 * 1_000_000_000,
        config.timer.focus_duration@ == 25 * 60 * 1_000_000_000,
        config.timer.short_breaks == 3,
        config.notification.timeout is None,
        config.notification.pestering is None,
        config.notification.snoozing is None,
        config.notification.short_break matches Some(text) && text@
            == "Take a short break! Drink water, take notes, move around."@,
        config.notification.long_break matches Some(text) && text@
            == "Take a long break! Grab a snack, take notes, move around."@,
        config.notification.focus matches Some(text) && text@ == "Time to focus! No distractions."@,
        config.sound.sound is None,
        config.sound.device is None,
{
}

/// The device tells a name, and it is not this one.
pub open spec fn has_another_name(device: Option<String>, name: Seq<char>) -> bool {
    device matches Some(other) && other@ != name
}

/// The search for the configured device goes through the list in order. It ends at the first device
/// that has the configured name or does not tell its name, and what it ends at is chosen or
/// refused; if it ends at none, or nothing is configured, the default device is chosen.
pub proof fn law_device_is_the_first_of_its_name(
    config: SoundConfig,
    devices: Vec<Option<String>>,
    choice: DeviceChoice,
)
    requires
        call_ensures(SoundConfig::choose_device, (&config, &devices), choice),
    ensures
        match (config.device, choice) {
            (None, _) => choice is SystemDefault,
            (Some(wanted), DeviceChoice::SystemDefault) => forall|i: int|
                0 <= i < devices@.len() ==> has_another_name(#[trigger] devices@[i], wanted@),
            (Some(wanted), DeviceChoice::Listed(n)) => {
                &&& n < devices@.len()
                &&& devices@[n as int] matches Some(name) && name@ == wanted@
                &&& forall|i: int|
                    0 <= i < n ==> has_another_name(#[trigger] devices@[i], wanted@)
            },
            (Some(wanted), DeviceChoice::Unnamed(n)) => {
                &&& n < devices@.len()
                &&& devices@[n as int] is None
                &&& forall|i: int|
                    0 <= i < n ==> has_another_name(#[trigger] devices@[i], wanted@)
            },
        },
{
}

/// A point in time is what it is made of, and there is one exactly in the calendar. Of two points
/// the one with the later second, or the later nanosecond of the same second, comes after.
pub proof fn law_points_are_made_and_compared(
    secs: i64,
    nanos: u32,
    made: Option<Moment>,
    other: Moment,
    after: bool,
    same: bool,
)
    requires
        call_ensures(Moment::new, (secs, nanos), made),
        made matches Some(moment) ==> {
            &&& call_ensures(Moment::is_after, (&moment, &other), after)
            &&& call_ensures(Moment::same, (&moment, &other), same)
        },
    ensures
        made is Some <==> {
            &&& -8_334_601_228_800 <= secs <= 8_210_266_876_799
            &&& nanos < 2_000_000_000
            &&& nanos < 1_000_000_000 || secs as int % 60 == 59
        },
        made matches Some(moment) ==> {
            &&& moment@.secs == secs
            &&& moment@.nanos == nanos
            &&& after <==> secs > other@.secs || (secs == other@.secs && nanos > other@.nanos)
            &&& same <==> secs == other@.secs && nanos == other@.nanos
        },
{
}

/// A length of time is its seconds and nanoseconds, and gives them back.
pub proof fn law_periods_are_seconds_and_nanoseconds(
    secs: u64,
    nanos: u32,
    made: Option<Period>,
    whole: Period,
    whole_secs: u64,
    rest: u32,
    millis: u128,
)
    requires
        call_ensures(Period::new, (secs, nanos), made),
        call_ensures(Period::from_secs, (secs,), whole),
        made matches Some(period) ==> {
            &&& call_ensures(Period::as_secs, (&period,), whole_secs)
            &&& call_ensures(Period::subsec_nanos, (&period,), rest)
            &&& call_ensures(Period::as_millis, (&period,), millis)
        },
    ensures
        whole@ == secs * 1_000_000_000,
        made is Some <==> nanos < 1_000_000_000,
        made matches Some(period) ==> {
            &&& period@ == secs * 1_000_000_000 + nanos
            &&& whole_secs == secs
            &&& rest == nanos
            &&& millis == secs * 1_000 + nanos as int / 1_000_000
        },
{
}

/// A span is a length of time exactly if it is not negative, and its whole seconds leave less than
/// a second of it.
pub proof fn law_spans_are_lengths_of_time(span: Span, secs: i64, period: Option<Period>)
    requires
        call_ensures(Span::num_seconds, (&span,), secs),
        call_ensures(Span::to_std, (&span,), period),
    ensures
        period is Some <==> span@ >= 0,
        period matches Some(period) ==> period@ == span@,
        span@ >= 0 ==> 0 <= span@ - secs * 1_000_000_000 < 1_000_000_000,
        span@ <= 0 ==> 0 <= secs * 1_000_000_000 - span@ < 1_000_000_000,
{
}

/// What the clock can read lies after the epoch, in the calendar and outside of leap seconds.
pub proof fn law_clock_reads_ordinary_times(now: Stamp)
    ensures
        clock_can_read(now) <==> {
            &&& 0 <= now.secs <= 8_210_266_876_799
            &&& 0 <= now.nanos < 1_000_000_000
        },
{
}

} // verus!
