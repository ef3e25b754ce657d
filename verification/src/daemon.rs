//! The daemon that keeps the timer.

use crate::config::{text_of, Config, TimerConfig};
use crate::cycle::{follows, obeys, runs_out, same_timer};
use crate::message::ClientMessage;
use crate::path::{bytes_of, clone_path, UnixPath};
use crate::time::{Moment, Period, Stamp};
use crate::timer::{
    changes_to, clock_can_read, DeadlineOverflow, Timer, TimerMode, TimerState, TimerUpdate,
};
use vstd::prelude::*;

verus! {

/// The daemon's state.
#[derive(Debug, PartialEq, Eq)]
pub struct Daemon {
    pub config: Config,
    pub timer: TimerState,
    /// The timer that was told last.
    pub old_timer: TimerState,
}

/// How an attempt to connect to the daemon's socket has gone, before there is a daemon.
#[derive(Copy, Clone, Debug, PartialEq, Eq, Structural)]
pub enum SocketProbe {
    /// Somebody answers.
    Connected,
    /// There is a socket, but nobody answers.
    Refused,
    /// There is no socket.
    NotFound,
    /// Something else went wrong.
    OtherError,
}

/// What is to be done before the daemon takes the socket.
#[derive(Copy, Clone, Debug, PartialEq, Eq, Structural)]
pub enum SocketAction {
    /// Nothing.
    Bind,
    /// The socket that an earlier daemon has left behind is to be removed.
    RemoveThenBind,
}

/// Why there can be no daemon.
#[derive(Copy, Clone, Debug, PartialEq, Eq, Structural)]
pub enum StartError {
    /// There is one already.
    AlreadyRunning,
    /// It is not known whether there is one already.
    ProbeFailed,
}

impl StartError {
    /// The error in words.
    pub open spec fn words(self) -> Seq<char> {
        match self {
            StartError::AlreadyRunning =>
                "another instance of Pomidor is already running on the given socket"@,
            StartError::ProbeFailed => "error testing if old daemon is running"@,
        }
    }

    /// The error in words.
    pub fn message(&self) -> (message: &'static str)
        ensures
            message@ == self.words(),
    {
        match self {
            StartError::AlreadyRunning =>
                "another instance of Pomidor is already running on the given socket",
            StartError::ProbeFailed => "error testing if old daemon is running",
        }
    }
}

/// What the daemon waits for.
#[derive(Copy, Clone, Debug, PartialEq, Eq)]
pub enum Wait {
    /// A message, however long it takes.
    ForMessage,
    /// Nothing: the deadline has passed.
    Elapsed,
    /// A message, but no longer than this.
    UntilDeadline(Period),
}

/// What ends the daemon's wait.
#[derive(Copy, Clone, Debug, PartialEq, Eq)]
pub enum Wake {
    /// A message.
    Message(ClientMessage),
    /// The deadline.
    Deadline,
    /// Nobody is left who could send a message.
    Closed,
}

/// A notification on the desktop.
#[derive(Debug, PartialEq, Eq)]
pub struct Notice {
    pub summary: String,
    pub body: String,
    /// How long it is shown, in milliseconds, or -1 if that is left to the desktop.
    pub timeout: i32,
}

/// How a new mode is announced.
#[derive(Debug, PartialEq, Eq)]
pub struct Alert {
    /// The notification to show, if any.
    pub notice: Option<Notice>,
    /// The file to play, if any.
    pub sound: Option<UnixPath>,
}

/// What is to be done after a wait, in this order.
#[derive(Debug, PartialEq, Eq)]
pub struct Effects {
    /// The timer to be told to all watchers because somebody has asked for it.
    pub reply: Option<TimerState>,
    /// The timer to be told to all watchers because it has changed.
    pub broadcast: Option<TimerState>,
    /// The new mode to be announced.
    pub alert: Option<Alert>,
}

/// How the daemon goes on after a wait.
#[derive(Debug, PartialEq, Eq)]
pub enum Turn {
    /// It stops.
    Stop,
    /// It does this, and waits again.
    Go(Effects),
}

/// The daemon can tell what to wait for at `now`: the time up to a deadline that has not passed is
/// not negative.
pub open spec fn can_wait(timer: Timer, now: Stamp) -> bool {
    timer.deadline matches Some(deadline) ==> now.is_after(deadline) || deadline.nanos_since(now)
        >= 0
}

/// What the daemon waits for at `now`.
pub open spec fn waits(timer: Timer, now: Stamp, wait: Wait) -> bool {
    match timer.deadline {
        None => wait is ForMessage,
        Some(deadline) => if now.is_after(deadline) {
            wait is Elapsed
        } else {
            wait matches Wait::UntilDeadline(period) && period@ == deadline.nanos_since(now)
        },
    }
}

/// The timer after a message that arrives at `now`.
pub open spec fn timer_after_message(
    timer: Timer,
    config: TimerConfig,
    message: ClientMessage,
    now: Stamp,
) -> Timer {
    match message {
        ClientMessage::Update(update) => timer.updated(config, update, now),
        _ => timer,
    }
}

/// The timer after a wait that ends at `now`.
pub open spec fn timer_after_wake(
    timer: Timer,
    config: TimerConfig,
    wake: Wake,
    now: Stamp,
) -> Timer {
    match wake {
        Wake::Message(message) => timer_after_message(timer, config, message, now),
        Wake::Deadline => timer.advanced(config, now),
        Wake::Closed => timer,
    }
}

/// A message that arrives at `now` is handled: the timer changes as the message says, and a ping
/// is answered with the timer. Where the new deadline is not in the calendar, nothing changes.
pub open spec fn handles(
    before: TimerState,
    config: TimerConfig,
    message: ClientMessage,
    now: Stamp,
    after: TimerState,
    result: Result<Option<TimerState>, DeadlineOverflow>,
) -> bool {
    &&& changes_to(
        before,
        timer_after_message(before@, config, message, now),
        after,
        match result {
            Ok(_) => Ok(()),
            Err(e) => Err(e),
        },
    )
    &&& result matches Ok(reply) ==> reply == (if message is Ping {
        Some(before)
    } else {
        None
    })
}

/// The mode of a timer is announced as it is configured.
pub open spec fn announces(config: Config, timer: TimerState, alert: Alert) -> bool {
    &&& match alert.notice {
        Some(notice) => {
            &&& notice.summary@ == timer.mode.name()
            &&& Some(notice.body@) == text_of(config.notification.message(timer.mode))
            &&& notice.timeout == config.notification.timeout_millis()
        },
        None => config.notification.message(timer.mode) is None,
    }
    &&& bytes_of(alert.sound) == bytes_of(config.sound.sound)
}

/// A wait ends at `now`, and the daemon goes on. It stops when nobody is left. Otherwise the timer
/// changes as it must; if that makes it differ from the one that was told last it is told, and if
/// it makes the mode differ the mode is announced. Where the new deadline is not in the calendar,
/// nothing changes.
pub open spec fn turns(
    before: Daemon,
    wake: Wake,
    now: Stamp,
    after: Daemon,
    result: Result<Turn, DeadlineOverflow>,
) -> bool {
    let timer = timer_after_wake(before.timer@, before.config.timer, wake, now);
    match result {
        Err(_) => !timer.fits() && after == before,
        Ok(Turn::Stop) => wake is Closed && after == before,
        Ok(Turn::Go(effects)) => {
            &&& wake !is Closed
            &&& timer.fits()
            &&& after.config == before.config
            &&& after.timer@ == timer
            &&& after.old_timer@ == timer
            &&& effects.reply == (if wake == Wake::Message(ClientMessage::Ping) {
                Some(before.timer)
            } else {
                None
            })
            &&& effects.broadcast == (if timer != before.old_timer@ {
                Some(after.timer)
            } else {
                None
            })
            &&& match effects.alert {
                Some(alert) => timer.mode != before.old_timer.mode && announces(
                    before.config,
                    after.timer,
                    alert,
                ),
                None => timer.mode == before.old_timer.mode,
            }
        },
    }
}

/// At a time that is not in a leap second the daemon can always tell what to wait for.
proof fn lemma_can_wait(timer: Timer, now: Stamp)
    requires
        timer.fits(),
        now.in_range(),
        !now.is_leap(),
    ensures
        can_wait(timer, now),
{
}

impl Daemon {
    /// Starts a daemon, unless there is one already: where nobody answers at the socket, and
    /// where there is none.
    pub fn run(config: Config, probe: SocketProbe) -> (start: Result<
        (Daemon, SocketAction),
        StartError,
    >)
        ensures
            match start {
                Ok((daemon, action)) => {
                    &&& daemon.config == config
                    &&& daemon.timer@ == Timer::initial(config.timer)
                    &&& daemon.old_timer@ == daemon.timer@
                    &&& match action {
                        SocketAction::Bind => probe is NotFound,
                        SocketAction::RemoveThenBind => probe is Refused,
                    }
                },
                Err(StartError::AlreadyRunning) => probe is Connected,
                Err(StartError::ProbeFailed) => probe is OtherError,
            },
    {
        let action = match probe {
            SocketProbe::Connected => {
                return Err(StartError::AlreadyRunning);
            },
            SocketProbe::Refused => SocketAction::RemoveThenBind,
            SocketProbe::NotFound => SocketAction::Bind,
            SocketProbe::OtherError => {
                return Err(StartError::ProbeFailed);
            },
        };
        let timer = TimerState::new(&config);
        Ok((Daemon { config, timer, old_timer: timer }, action))
    }

    /// What to wait for now.
    pub fn wait(&self) -> (wait: Wait)
        ensures
            exists|now: Stamp| #[trigger] clock_can_read(now) && waits(self.timer@, now, wait),
    {
        let now = Moment::now();
        proof {
            use_type_invariant(now);
            assert(clock_can_read(now@));
            match self.timer.deadline {
                Some(deadline) => use_type_invariant(deadline),
                None => {},
            }
            lemma_can_wait(self.timer@, now@);
        }
        self.wait_at(now)
    }

    /// What to wait for at `now`.
    pub fn wait_at(&self, now: Moment) -> (wait: Wait)
        requires
            can_wait(self.timer@, now@),
        ensures
            waits(self.timer@, now@, wait),
    {
        match &self.timer.deadline {
            None => Wait::ForMessage,
            Some(deadline) => {
                if now.is_after(deadline) {
                    Wait::Elapsed
                } else {
                    let since = deadline.signed_duration_since(&now);
                    Wait::UntilDeadline(since.to_std().unwrap())
                }
            },
        }
    }

    /// Goes on after a wait that ends now.
    pub fn turn(&mut self, wake: Wake) -> (result: Result<Turn, DeadlineOverflow>)
        requires
            wake != Wake::Message(ClientMessage::Watch),
        ensures
            exists|now: Stamp| #[trigger]
                clock_can_read(now) && turns(*old(self), wake, now, *final(self), result),
    {
        let now = Moment::now();
        proof {
            use_type_invariant(now);
            assert(clock_can_read(now@));
        }
        self.turn_at(wake, now)
    }

    /// Goes on after a wait that ends at `now`.
    pub fn turn_at(&mut self, wake: Wake, now: Moment) -> (result: Result<Turn, DeadlineOverflow>)
        requires
            wake != Wake::Message(ClientMessage::Watch),
        ensures
            turns(*old(self), wake, now@, *final(self), result),
    {
        let mut reply: Option<TimerState> = None;
        match wake {
            Wake::Closed => {
                return Ok(Turn::Stop);
            },
            Wake::Deadline => {
                self.timer.on_deadline_at(&self.config, now)?;
            },
            Wake::Message(message) => {
                reply = Daemon::on_message_at(&mut self.config, &mut self.timer, message, now)?;
            },
        }
        let mut broadcast: Option<TimerState> = None;
        let mut alert: Option<Alert> = None;
        if !self.timer.same(&self.old_timer) {
            broadcast = Some(self.timer);
            if self.timer.mode != self.old_timer.mode {
                alert = Some(Daemon::on_state_change(&self.config, &self.timer));
            }
            self.old_timer = self.timer;
        }
        Ok(Turn::Go(Effects { reply, broadcast, alert }))
    }

    /// How the mode of a timer is announced.
    pub fn on_state_change(config: &Config, timer: &TimerState) -> (alert: Alert)
        ensures
            announces(*config, *timer, alert),
    {
        let notice = match config.notification.for_mode(timer.mode) {
            Some(body) => Some(
                Notice {
                    summary: timer.mode.to_string(),
                    body: body.clone(),
                    timeout: config.notification.expire_timeout(),
                },
            ),
            None => None,
        };
        Alert { notice, sound: clone_path(&config.sound.sound) }
    }

    /// Handles a message that arrives now, and gives the timer that all watchers are to be told,
    /// if any. A request to watch is not for the daemon as a whole.
    pub fn on_message(config: &mut Config, timer: &mut TimerState, message: ClientMessage) -> (result:
        Result<Option<TimerState>, DeadlineOverflow>)
        requires
            message !is Watch,
        ensures
            *final(config) == *old(config),
            exists|now: Stamp| #[trigger]
                clock_can_read(now) && handles(
                    *old(timer),
                    old(config).timer,
                    message,
                    now,
                    *final(timer),
                    result,
                ),
    {
        let now = Moment::now();
        proof {
            use_type_invariant(now);
            assert(clock_can_read(now@));
        }
        Daemon::on_message_at(config, timer, message, now)
    }

    /// Handles a message that arrives at `now`.
    pub fn on_message_at(
        config: &mut Config,
        timer: &mut TimerState,
        message: ClientMessage,
        now: Moment,
    ) -> (result: Result<Option<TimerState>, DeadlineOverflow>)
        requires
            message !is Watch,
        ensures
            *final(config) == *old(config),
            handles(*old(timer), old(config).timer, message, now@, *final(timer), result),
    {
        proof {
            match timer.deadline {
                Some(deadline) => use_type_invariant(deadline),
                None => {},
            }
        }
        match message {
            ClientMessage::Ping => Ok(Some(*timer)),
            ClientMessage::Update(update) => {
                timer.on_update_at(config, update, now)?;
                Ok(None)
            },
            _ => Ok(None),
        }
    }
}

/// The only message that can fail is an update whose new deadline lies outside of the calendar; and
/// it fails exactly then.
pub proof fn law_only_an_update_overflows(
    before: TimerState,
    config: TimerConfig,
    message: ClientMessage,
    now: Stamp,
    after: TimerState,
    result: Result<Option<TimerState>, DeadlineOverflow>,
)
    requires
        before@.fits(),
        handles(before, config, message, now, after, result),
    ensures
        result is Err <==> (message matches ClientMessage::Update(update) && !before@.updated(
            config,
            update,
            now,
        ).fits()),
{
}

/// The timer that a watcher knows of after it has been told, if it knew `known` before.
pub open spec fn heard(known: Timer, effects: Effects) -> Timer {
    match (effects.broadcast, effects.reply) {
        (Some(timer), _) => timer@,
        (None, Some(timer)) => timer@,
        (None, None) => known,
    }
}

/// A watcher that knows what was told last knows the timer as it stands after every turn of the
/// daemon.
pub proof fn law_watchers_stay_up_to_date(
    before: Daemon,
    wake: Wake,
    now: Stamp,
    after: Daemon,
    effects: Effects,
    known: Timer,
)
    requires
        turns(before, wake, now, after, Ok(Turn::Go(effects))),
        known == before.old_timer@,
    ensures
        heard(known, effects) == after.timer@,
        heard(known, effects) == after.old_timer@,
{
}

/// A ping tells every watcher the timer as it stands, whatever it knew before.
pub proof fn law_ping_tells_the_timer(
    before: Daemon,
    now: Stamp,
    after: Daemon,
    effects: Effects,
    known: Timer,
)
    requires
        turns(before, Wake::Message(ClientMessage::Ping), now, after, Ok(Turn::Go(effects))),
    ensures
        heard(known, effects) == after.timer@,
        after.timer@ == before.timer@,
{
}

/// Between turns the timer is the one that was told last: so it is at first and after every turn.
/// A turn of such a daemon tells the timer exactly if it changes, and announces the mode exactly
/// if that changes.
pub proof fn law_exactly_the_changes_are_told(
    before: Daemon,
    wake: Wake,
    now: Stamp,
    after: Daemon,
    effects: Effects,
)
    requires
        before.timer@ == before.old_timer@,
        turns(before, wake, now, after, Ok(Turn::Go(effects))),
    ensures
        after.timer@ == after.old_timer@,
        effects.broadcast is Some <==> after.timer@ != before.timer@,
        effects.alert is Some <==> after.timer.mode != before.timer.mode,
{
}

/// The deadline never wakes a daemon whose timer is pestering: it waits for a message however
/// long it takes exactly then.
pub proof fn law_pestering_waits_for_a_message(timer: Timer, now: Stamp, wait: Wait)
    requires
        timer.is_settled(),
        waits(timer, now, wait),
    ensures
        wait is ForMessage <==> timer.mode is Pestering,
{
}

/// The daemon waits exactly up to the deadline.
pub proof fn law_wait_lasts_to_the_deadline(timer: Timer, now: Stamp, period: Period)
    requires
        timer.fits(),
        now.in_range(),
        !now.is_leap(),
        waits(timer, now, Wait::UntilDeadline(period)),
        timer.deadline matches Some(deadline) && !deadline.is_leap(),
    ensures
        timer.deadline == Some(now.plus(period@)),
{
}

/// The daemon keeps what holds of the timer: only pestering has no deadline, and there are no more
/// short breaks left than configured.
pub proof fn law_turns_keep_the_timer_sound(
    before: Daemon,
    wake: Wake,
    now: Stamp,
    after: Daemon,
    result: Result<Turn, DeadlineOverflow>,
)
    requires
        turns(before, wake, now, after, result),
        before.timer@.is_settled(),
        before.timer@.short_breaks <= before.config.timer.short_breaks,
    ensures
        after.timer@.is_settled(),
        after.timer@.short_breaks <= after.config.timer.short_breaks,
        after.config == before.config,
{
}

/// A notification says what is configured, under the name of the mode, or is missing exactly if
/// nothing is.
pub open spec fn notice_says(
    notice: Option<Notice>,
    name: Seq<char>,
    message: Option<String>,
    timeout: Option<Period>,
) -> bool {
    match (notice, message) {
        (None, None) => true,
        (Some(notice), Some(message)) => {
            &&& notice.summary@ == name
            &&& notice.body@ == message@
            &&& match timeout {
                None => notice.timeout == -1,
                Some(timeout) => {
                    let millis = timeout@ as int / 1_000_000;
                    &&& (millis - notice.timeout) % 4_294_967_296 == 0
                    &&& millis <= 2_147_483_647 ==> notice.timeout == millis
                },
            }
        },
        _ => false,
    }
}

/// A mode is announced with the message that is configured for it, and with the sound that is
/// configured for all.
pub open spec fn announced(config: Config, mode: TimerMode, alert: Alert) -> bool {
    let texts = config.notification;
    &&& match mode {
        TimerMode::Pestering => notice_says(
            alert.notice,
            "Pestering"@,
            texts.pestering,
            texts.timeout,
        ),
        TimerMode::Snoozing => notice_says(
            alert.notice,
            "Snoozing"@,
            texts.snoozing,
            texts.timeout,
        ),
        TimerMode::ShortBreak => notice_says(
            alert.notice,
            "Short break"@,
            texts.short_break,
            texts.timeout,
        ),
        TimerMode::LongBreak => notice_says(
            alert.notice,
            "Long break"@,
            texts.long_break,
            texts.timeout,
        ),
        TimerMode::Focus => notice_says(alert.notice, "Focus"@, texts.focus, texts.timeout),
    }
    &&& match (alert.sound, config.sound.sound) {
        (None, None) => true,
        (Some(played), Some(configured)) => played.bytes@ == configured.bytes@,
        _ => false,
    }
}

/// Every mode that has a message configured is announced with it, and a mode that has none is
/// announced without a notification; the sound is the configured one.
pub proof fn law_mode_is_announced_as_configured(config: Config, timer: TimerState, alert: Alert)
    requires
        announces(config, timer, alert),
    ensures
        announced(config, timer.mode, alert),
{
}

/// A turn that changes the mode announces the new mode as it is configured, and one that does not
/// announces nothing.
pub proof fn law_new_mode_is_announced(
    before: Daemon,
    wake: Wake,
    now: Stamp,
    after: Daemon,
    effects: Effects,
)
    requires
        turns(before, wake, now, after, Ok(Turn::Go(effects))),
    ensures
        match effects.alert {
            Some(alert) => after.timer.mode != before.old_timer.mode && announced(
                before.config,
                after.timer.mode,
                alert,
            ),
            None => after.timer.mode == before.old_timer.mode,
        },
{
}

/// A turn that the deadline ends leaves the timer where the end of its mode leads.
pub proof fn law_deadline_ends_the_mode(
    before: Daemon,
    now: Stamp,
    after: Daemon,
    effects: Effects,
)
    requires
        now.in_range(),
        turns(before, Wake::Deadline, now, after, Ok(Turn::Go(effects))),
    ensures
        follows(before.timer, before.config.timer, now, after.timer),
        effects.reply is None,
        after.config == before.config,
{
}

/// A turn that an update ends leaves the timer as the update says.
pub proof fn law_update_is_carried_out(
    before: Daemon,
    update: TimerUpdate,
    now: Stamp,
    after: Daemon,
    effects: Effects,
)
    requires
        now.in_range(),
        turns(
            before,
            Wake::Message(ClientMessage::Update(update)),
            now,
            after,
            Ok(Turn::Go(effects)),
        ),
    ensures
        obeys(before.timer, before.config.timer, update, now, after.timer),
        effects.reply is None,
        after.config == before.config,
{
}

/// Neither a ping nor a request for the configuration touches the timer. A ping has it told; the
/// request does not.
pub proof fn law_other_messages_leave_the_timer_alone(
    before: Daemon,
    message: ClientMessage,
    now: Stamp,
    after: Daemon,
    effects: Effects,
)
    requires
        message is Ping || message is ReloadConfig,
        turns(before, Wake::Message(message), now, after, Ok(Turn::Go(effects))),
    ensures
        same_timer(before.timer, after.timer),
        message is Ping ==> effects.reply == Some(before.timer),
        message is ReloadConfig ==> effects.reply is None,
        after.config == before.config,
{
}

/// What is broadcast is the timer as it stands after the turn, and it is broadcast exactly if its
/// mode, its deadline or its short breaks differ from what was told last. Then that is what was
/// told last.
pub proof fn law_what_differs_is_broadcast(
    before: Daemon,
    wake: Wake,
    now: Stamp,
    after: Daemon,
    effects: Effects,
)
    requires
        turns(before, wake, now, after, Ok(Turn::Go(effects))),
    ensures
        effects.broadcast is Some <==> !same_timer(after.timer, before.old_timer),
        effects.broadcast matches Some(told) ==> same_timer(told, after.timer),
        same_timer(after.old_timer, after.timer),
{
}

/// The daemon stops exactly when nobody is left to send it anything. It fails only where a period
/// or a snooze would have no end in the calendar, and then stays as it is.
pub proof fn law_daemon_stops_and_fails(
    before: Daemon,
    wake: Wake,
    now: Stamp,
    after: Daemon,
    result: Result<Turn, DeadlineOverflow>,
)
    requires
        now.in_range(),
        before.timer.deadline matches Some(deadline) ==> deadline@.in_range(),
        turns(before, wake, now, after, result),
    ensures
        result == Ok::<Turn, DeadlineOverflow>(Turn::Stop) <==> wake is Closed,
        wake is Closed || result is Err ==> after == before,
        result is Err ==> wake is Deadline || wake matches Wake::Message(ClientMessage::Update(_)),
        wake is Deadline && before.timer.mode is Snoozing ==> result is Ok,
        wake is Deadline && before.timer.mode is Focus && before.timer.short_breaks > 0 ==> (result
            is Err <==> runs_out(now, before.config.timer.short_break_duration@)),
        wake is Deadline && before.timer.mode is Focus && before.timer.short_breaks == 0 ==> (
        result is Err <==> runs_out(now, before.config.timer.long_break_duration@)),
        wake is Deadline && before.timer.mode !is Focus && before.timer.mode !is Snoozing ==> (
        result is Err <==> runs_out(now, before.config.timer.focus_duration@)),
        wake == Wake::Message(ClientMessage::Update(TimerUpdate::Reset)) ==> result is Ok,
        wake matches Wake::Message(ClientMessage::Update(TimerUpdate::Snooze { time })) ==> (result
            is Err <==> match (before.timer.mode, before.timer.deadline) {
            (TimerMode::Pestering, _) => runs_out(now, time@),
            (TimerMode::Snoozing, Some(deadline)) => runs_out(deadline@, time@),
            (TimerMode::Snoozing, None) => runs_out(now, time@),
            _ => false,
        }),
{
}

/// A skip fails in a turn exactly if the deadline at the same time would.
pub proof fn law_skip_fails_as_the_deadline_does(
    before: Daemon,
    now: Stamp,
    after_skip: Daemon,
    skip: Result<Turn, DeadlineOverflow>,
    after_deadline: Daemon,
    deadline: Result<Turn, DeadlineOverflow>,
)
    requires
        turns(
            before,
            Wake::Message(ClientMessage::Update(TimerUpdate::Skip)),
            now,
            after_skip,
            skip,
        ),
        turns(before, Wake::Deadline, now, after_deadline, deadline),
    ensures
        skip is Err <==> deadline is Err,
        same_timer(after_skip.timer, after_deadline.timer),
{
}

/// A message is handled: an update is carried out and not answered, a ping is answered with the
/// timer and changes nothing, and anything else does neither.
pub proof fn law_message_is_handled(
    before: TimerState,
    config: TimerConfig,
    message: ClientMessage,
    now: Stamp,
    after: TimerState,
    result: Result<Option<TimerState>, DeadlineOverflow>,
)
    requires
        now.in_range(),
        before.deadline matches Some(deadline) ==> deadline@.in_range(),
        handles(before, config, message, now, after, result),
    ensures
        match (message, result) {
            (_, Err(_)) => message is Update && after == before,
            (ClientMessage::Update(update), Ok(reply)) => reply is None && obeys(
                before,
                config,
                update,
                now,
                after,
            ),
            (ClientMessage::Ping, Ok(reply)) => reply == Some(before) && same_timer(before, after),
            (_, Ok(reply)) => reply is None && same_timer(before, after),
        },
{
}

/// Whatever the timer: at a time that is not in a leap second, the daemon can tell what to wait for.
pub proof fn law_daemon_can_always_wait(timer: TimerState, now: Stamp)
    requires
        now.in_range(),
        !now.is_leap(),
        timer.deadline matches Some(deadline) ==> deadline@.in_range(),
    ensures
        can_wait(timer@, now),
{
    lemma_can_wait(timer@, now);
}

/// Without a deadline the daemon waits for a message; after the deadline it does not wait; and
/// before it, it waits for the time that is left, to the nanosecond.
pub proof fn law_wait_is_the_time_left(timer: TimerState, now: Stamp, wait: Wait)
    requires
        waits(timer@, now, wait),
    ensures
        match timer.deadline {
            None => wait is ForMessage,
            Some(deadline) => if now.secs > deadline@.secs || (now.secs == deadline@.secs
                && now.nanos > deadline@.nanos) {
                wait is Elapsed
            } else {
                &&& wait matches Wait::UntilDeadline(period)
                &&& period@ == deadline@.nanos_since(now)
                &&& 0 <= now.nanos < 1_000_000_000 && 0 <= deadline@.nanos < 1_000_000_000 ==> (
                now.secs * 1_000_000_000 + now.nanos) + period@ == deadline@.secs * 1_000_000_000
                    + deadline@.nanos
            },
        },
{
}

/// Each error has its words.
pub proof fn law_start_errors_in_words()
    ensures
        StartError::AlreadyRunning.words()
            == "another instance of Pomidor is already running on the given socket"@,
        StartError::ProbeFailed.words() == "error testing if old daemon is running"@,
{
}

} // verus!
