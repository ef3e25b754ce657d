//! The timer: focus periods with short breaks between them and a long break after some of those.

use crate::config::{Config, TimerConfig};
use crate::time::{Moment, Period, Stamp};
use vstd::prelude::*;

verus! {

/// What the timer is doing.
#[derive(Copy, Clone, Debug, PartialEq, Eq, Structural)]
pub enum TimerMode {
    /// Hey. You should be using the Pomodoro Technique.
    Pestering,
    /// Okay, I guess you can use me later...
    Snoozing,
    /// Short break period.
    ShortBreak,
    /// Long break period.
    LongBreak,
    /// Time to focus!
    Focus,
}

/// A request to change the timer.
#[derive(Copy, Clone, Debug, PartialEq, Eq)]
pub enum TimerUpdate {
    /// Skips this timer and goes to the next one.
    Skip,
    /// Resets the timer to its default state (pestering with all breaks).
    Reset,
    /// Adds snooze time to pester or snooze modes.
    Snooze {
        /// The amount of time to snooze for.
        time: Period,
    },
}

/// The timer as it stands.
#[derive(Copy, Clone, Debug, PartialEq, Eq)]
pub struct TimerState {
    /// When the mode ends, if it does so by itself.
    pub deadline: Option<Moment>,
    /// The number of short breaks left before the long one.
    pub short_breaks: u8,
    pub mode: TimerMode,
}

/// The end of a period would lie outside of the calendar.
#[derive(Copy, Clone, Debug, PartialEq, Eq)]
pub struct DeadlineOverflow {}

/// The mathematical value of a [`TimerState`].
pub struct Timer {
    pub deadline: Option<Stamp>,
    pub short_breaks: nat,
    pub mode: TimerMode,
}

/// The value of an optional point in time.
pub open spec fn stamp_of(moment: Option<Moment>) -> Option<Stamp> {
    match moment {
        Some(m) => Some(m@),
        None => None,
    }
}

impl View for TimerState {
    type V = Timer;

    open spec fn view(&self) -> Timer {
        Timer {
            deadline: stamp_of(self.deadline),
            short_breaks: self.short_breaks as nat,
            mode: self.mode,
        }
    }
}

/// What the clock can read: a point in the calendar, not before the Unix epoch and not inside a
/// leap second.
pub open spec fn clock_can_read(now: Stamp) -> bool {
    now.in_range() && now.secs >= 0 && !now.is_leap()
}

impl Timer {
    /// The timer before it was first used: pestering with all breaks.
    pub open spec fn initial(config: TimerConfig) -> Timer {
        Timer {
            deadline: None,
            short_breaks: config.short_breaks as nat,
            mode: TimerMode::Pestering,
        }
    }

    /// The calendar holds the deadline, if there is one.
    pub open spec fn fits(self) -> bool {
        self.deadline matches Some(deadline) ==> deadline.in_range()
    }

    /// Snoozing is followed by pestering, a focus period by a break, and all else by a focus
    /// period.
    pub open spec fn next_mode(self) -> TimerMode {
        match self.mode {
            TimerMode::Snoozing => TimerMode::Pestering,
            TimerMode::Focus => if self.short_breaks == 0 {
                TimerMode::LongBreak
            } else {
                TimerMode::ShortBreak
            },
            _ => TimerMode::Focus,
        }
    }

    /// How many short breaks are left in the next mode. A short break uses one up. All are there
    /// again from a long break on, and when pestering has been heeded.
    pub open spec fn next_short_breaks(self, config: TimerConfig) -> nat {
        match (self.mode, self.next_mode()) {
            (_, TimerMode::ShortBreak) => (self.short_breaks - 1) as nat,
            (_, TimerMode::LongBreak) => config.short_breaks as nat,
            (TimerMode::Pestering, _) => config.short_breaks as nat,
            _ => self.short_breaks,
        }
    }

    /// The timer when its mode ends at `now`.
    pub open spec fn advanced(self, config: TimerConfig, now: Stamp) -> Timer {
        Timer {
            deadline: match self.next_mode() {
                TimerMode::Focus => Some(now.plus(config.focus_duration@)),
                TimerMode::ShortBreak => Some(now.plus(config.short_break_duration@)),
                TimerMode::LongBreak => Some(now.plus(config.long_break_duration@)),
                _ => None,
            },
            short_breaks: self.next_short_breaks(config),
            mode: self.next_mode(),
        }
    }

    /// The timer when an update reaches it at `now`. Snoozing stops the pestering for the time
    /// given, or prolongs a snooze by it; it means nothing in other modes.
    pub open spec fn updated(self, config: TimerConfig, update: TimerUpdate, now: Stamp) -> Timer {
        match update {
            TimerUpdate::Skip => self.advanced(config, now),
            TimerUpdate::Reset => Timer::initial(config),
            TimerUpdate::Snooze { time } => match self.mode {
                TimerMode::Pestering => Timer {
                    deadline: Some(now.plus(time@)),
                    mode: TimerMode::Snoozing,
                    ..self
                },
                TimerMode::Snoozing => Timer {
                    deadline: Some(
                        match self.deadline {
                            Some(deadline) => deadline.plus(time@),
                            None => now.plus(time@),
                        },
                    ),
                    ..self
                },
                _ => self,
            },
        }
    }

    /// Only the pestering goes on until something is done about it.
    pub open spec fn is_settled(self) -> bool {
        self.deadline is None <==> self.mode is Pestering
    }
}

/// How a change of the timer turns out: the timer becomes `changed` if its deadline is in the
/// calendar, and stays as it is otherwise.
pub open spec fn changes_to(
    before: TimerState,
    changed: Timer,
    after: TimerState,
    result: Result<(), DeadlineOverflow>,
) -> bool {
    match result {
        Ok(_) => changed.fits() && after@ == changed,
        Err(_) => !changed.fits() && after == before,
    }
}

impl TimerMode {
    /// The name of the mode.
    pub open spec fn name(self) -> Seq<char> {
        match self {
            TimerMode::Pestering => "Pestering"@,
            TimerMode::Snoozing => "Snoozing"@,
            TimerMode::ShortBreak => "Short break"@,
            TimerMode::LongBreak => "Long break"@,
            TimerMode::Focus => "Focus"@,
        }
    }

    /// The name of the mode.
    pub fn to_string(&self) -> (name: String)
        ensures
            name@ == self.name(),
    {
        let name = match self {
            TimerMode::Pestering => "Pestering",
            TimerMode::Snoozing => "Snoozing",
            TimerMode::ShortBreak => "Short break",
            TimerMode::LongBreak => "Long break",
            TimerMode::Focus => "Focus",
        };
        name.to_string()
    }
}

impl TimerState {
    /// A timer that has not been used yet.
    pub fn new(config: &Config) -> (timer: Self)
        ensures
            timer@ == Timer::initial(config.timer),
    {
        TimerState {
            deadline: None,
            short_breaks: config.timer.short_breaks,
            mode: TimerMode::Pestering,
        }
    }

    /// Ends the mode now.
    pub fn on_deadline(&mut self, config: &Config) -> (result: Result<(), DeadlineOverflow>)
        ensures
            exists|now: Stamp| #[trigger]
                clock_can_read(now) && changes_to(
                    *old(self),
                    old(self)@.advanced(config.timer, now),
                    *final(self),
                    result,
                ),
    {
        let now = Moment::now();
        proof {
            use_type_invariant(now);
            assert(clock_can_read(now@));
        }
        self.on_deadline_at(config, now)
    }

    /// Ends the mode at `now`.
    pub fn on_deadline_at(&mut self, config: &Config, now: Moment) -> (result: Result<
        (),
        DeadlineOverflow,
    >)
        ensures
            changes_to(
                *old(self),
                old(self)@.advanced(config.timer, now@),
                *final(self),
                result,
            ),
    {
        match self.mode {
            TimerMode::Pestering => {
                // A deadline does not lead here, but an update can.
                let deadline = end_of(&now, &config.timer.focus_duration)?;
                self.short_breaks = config.timer.short_breaks;
                self.deadline = Some(deadline);
                self.mode = TimerMode::Focus;
            },
            TimerMode::Snoozing => {
                self.deadline = None;
                self.mode = TimerMode::Pestering;
            },
            TimerMode::ShortBreak | TimerMode::LongBreak => {
                let deadline = end_of(&now, &config.timer.focus_duration)?;
                self.deadline = Some(deadline);
                self.mode = TimerMode::Focus;
            },
            TimerMode::Focus => {
                if self.short_breaks == 0 {
                    let deadline = end_of(&now, &config.timer.long_break_duration)?;
                    self.short_breaks = config.timer.short_breaks;
                    self.deadline = Some(deadline);
                    self.mode = TimerMode::LongBreak;
                } else {
                    let deadline = end_of(&now, &config.timer.short_break_duration)?;
                    self.short_breaks = self.short_breaks - 1;
                    self.deadline = Some(deadline);
                    self.mode = TimerMode::ShortBreak;
                }
            },
        }
        Ok(())
    }

    /// Applies an update now.
    pub fn on_update(&mut self, config: &Config, update: TimerUpdate) -> (result: Result<
        (),
        DeadlineOverflow,
    >)
        ensures
            exists|now: Stamp| #[trigger]
                clock_can_read(now) && changes_to(
                    *old(self),
                    old(self)@.updated(config.timer, update, now),
                    *final(self),
                    result,
                ),
    {
        let now = Moment::now();
        proof {
            use_type_invariant(now);
            assert(clock_can_read(now@));
        }
        self.on_update_at(config, update, now)
    }

    /// Applies an update at `now`.
    pub fn on_update_at(&mut self, config: &Config, update: TimerUpdate, now: Moment) -> (result:
        Result<(), DeadlineOverflow>)
        ensures
            changes_to(
                *old(self),
                old(self)@.updated(config.timer, update, now@),
                *final(self),
                result,
            ),
    {
        match (update, self.mode) {
            (TimerUpdate::Skip, _) => {
                return self.on_deadline_at(config, now);
            },
            (TimerUpdate::Reset, _) => {
                self.short_breaks = config.timer.short_breaks;
                self.deadline = None;
                self.mode = TimerMode::Pestering;
            },
            (TimerUpdate::Snooze { time }, TimerMode::Pestering) => {
                self.deadline = Some(end_of(&now, &time)?);
                self.mode = TimerMode::Snoozing;
            },
            (TimerUpdate::Snooze { time }, TimerMode::Snoozing) => {
                let deadline = self.deadline.unwrap_or(now);
                self.deadline = Some(end_of(&deadline, &time)?);
            },
            (TimerUpdate::Snooze { .. }, _) => {
                proof {
                    match self.deadline {
                        Some(deadline) => use_type_invariant(deadline),
                        None => {},
                    }
                }
            },
        }
        Ok(())
    }

    /// The two are the same.
    pub fn same(&self, other: &TimerState) -> (same: bool)
        ensures
            same == (self@ == other@),
    {
        let same_deadline = match (&self.deadline, &other.deadline) {
            (Some(a), Some(b)) => a.same(b),
            (None, None) => true,
            _ => false,
        };
        same_deadline && self.short_breaks == other.short_breaks && self.mode == other.mode
    }
}

/// The end of a period that starts at `start`.
fn end_of(start: &Moment, length: &Period) -> (end: Result<Moment, DeadlineOverflow>)
    ensures
        end is Ok <==> start@.plus(length@).in_range(),
        end matches Ok(end) ==> end@ == start@.plus(length@),
{
    match start.checked_add(length) {
        Some(end) => Ok(end),
        None => Err(DeadlineOverflow {  }),
    }
}

} // verus!
