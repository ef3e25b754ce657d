//! What the status bar shows.

use crate::config::{Config, TimerConfig};
use crate::text::{
    clock_face, decimal, format_clock, is_number, law_clock_face_tells_the_seconds,
    law_decimal_is_the_number, push_decimal, reads_as,
};
use crate::time::{whole_seconds, Moment, Stamp, NANOS_PER_SEC};
use crate::timer::{Timer, TimerMode, TimerState};
use vstd::prelude::*;

verus! {

/// What the status bar is told to show.
#[derive(Debug, PartialEq, Eq)]
pub struct WaybarOutput {
    pub text: String,
    pub alt: String,
    pub tooltip: String,
    pub class: String,
    pub percentage: i64,
}

/// The mathematical value of a [`WaybarOutput`].
pub struct Display {
    pub text: Seq<char>,
    pub alt: Seq<char>,
    pub tooltip: Seq<char>,
    pub class: Seq<char>,
    pub percentage: int,
}

impl View for WaybarOutput {
    type V = Display;

    open spec fn view(&self) -> Display {
        Display {
            text: self.text@,
            alt: self.alt@,
            tooltip: self.tooltip@,
            class: self.class@,
            percentage: self.percentage as int,
        }
    }
}

/// The class by which a style sheet knows a mode: its name in small letters, in one word.
pub open spec fn class_of(mode: TimerMode) -> Seq<char> {
    match mode {
        TimerMode::Pestering => "pestering"@,
        TimerMode::Snoozing => "snoozing"@,
        TimerMode::ShortBreak => "shortbreak"@,
        TimerMode::LongBreak => "longbreak"@,
        TimerMode::Focus => "focus"@,
    }
}

/// The whole seconds from `now` to the deadline.
pub open spec fn seconds_left(deadline: Stamp, now: Stamp) -> int {
    whole_seconds(deadline.nanos_since(now))
}

/// The time that is left, as it is shown: none once the deadline has passed.
pub open spec fn remaining(deadline: Stamp, now: Stamp) -> Seq<char> {
    if now.is_after(deadline) {
        "00:00"@
    } else {
        clock_face(seconds_left(deadline, now) as nat)
    }
}

impl Display {
    /// A timer at `now`: its mode with the time that is left of it, and the short breaks left.
    pub open spec fn of_timer(timer: Timer, now: Stamp) -> Display {
        Display {
            text: match timer.deadline {
                Some(deadline) => timer.mode.name() + ": "@ + remaining(deadline, now),
                None => timer.mode.name(),
            },
            alt: ""@,
            tooltip: decimal(timer.short_breaks) + " short breaks left"@,
            class: class_of(timer.mode),
            percentage: 0,
        }
    }

    /// An error message.
    pub open spec fn of_error(message: Seq<char>) -> Display {
        Display { text: message, alt: ""@, tooltip: ""@, class: "error"@, percentage: 0 }
    }
}

/// Up to the deadline, the seconds that are left are not negative.
proof fn lemma_seconds_left_before_deadline(deadline: Stamp, now: Stamp)
    requires
        deadline.in_range(),
        now.in_range(),
        !now.is_after(deadline),
    ensures
        seconds_left(deadline, now) >= 0,
{
    assert(deadline.nanos_since(now) > -NANOS_PER_SEC);
}

/// A point in time that is not in a leap second, and the one that is `nanos` later, are `nanos`
/// apart.
pub proof fn law_plus_then_since(start: Stamp, nanos: nat)
    requires
        start.in_range(),
        !start.is_leap(),
    ensures
        start.plus(nanos).nanos_since(start) == nanos,
{
}

/// When a mode begins, its whole configured length is left, to the second.
pub proof fn law_new_mode_shows_its_whole_length(timer: Timer, config: TimerConfig, now: Stamp)
    requires
        now.in_range(),
        !now.is_leap(),
    ensures
        ({
            let next = timer.advanced(config, now);
            let length = match next.mode {
                TimerMode::Focus => config.focus_duration@,
                TimerMode::ShortBreak => config.short_break_duration@,
                _ => config.long_break_duration@,
            };
            next.deadline matches Some(deadline) ==> remaining(deadline, now) == clock_face(
                length / (NANOS_PER_SEC as nat),
            )
        }),
{
    let next = timer.advanced(config, now);
    if next.deadline is Some {
        law_plus_then_since(now, config.focus_duration@);
        law_plus_then_since(now, config.short_break_duration@);
        law_plus_then_since(now, config.long_break_duration@);
    }
}

/// As time goes by, the seconds that are left do not become more.
pub proof fn law_remaining_time_never_grows(deadline: Stamp, now: Stamp, later: Stamp)
    requires
        !deadline.is_leap() && deadline.in_range(),
        !now.is_leap() && now.in_range(),
        !later.is_leap() && later.in_range(),
        !now.is_after(later),
    ensures
        seconds_left(deadline, later) <= seconds_left(deadline, now),
{
    assert(deadline.nanos_since(later) <= deadline.nanos_since(now));
}

/// Only the time between now and the deadline matters: what is shown does not change if both lie
/// later by the same time.
pub proof fn law_only_the_time_between_is_shown(timer: Timer, now: Stamp, shift: nat)
    requires
        timer.fits(),
        timer.deadline matches Some(deadline) ==> !deadline.is_leap(),
        now.in_range(),
        !now.is_leap(),
    ensures
        ({
            let shifted = Timer {
                deadline: match timer.deadline {
                    Some(deadline) => Some(deadline.plus(shift)),
                    None => None,
                },
                ..timer
            };
            Display::of_timer(shifted, now.plus(shift)) == Display::of_timer(timer, now)
        }),
{
    match timer.deadline {
        Some(deadline) => {
            let shifted = deadline.plus(shift);
            assert(shifted.nanos_since(now.plus(shift)) == deadline.nanos_since(now));
            assert(now.plus(shift).is_after(shifted) == now.is_after(deadline));
        },
        None => {},
    }
}

impl WaybarOutput {
    /// What a timer looks like at `now`.
    pub fn new(_config: &Config, timer: &TimerState, now: Moment) -> (output: Self)
        ensures
            output@ == Display::of_timer(timer@, now@),
    {
        let mut text = timer.mode.to_string();
        match &timer.deadline {
            Some(deadline) => {
                text.append(": ");
                if now.is_after(deadline) {
                    text.append("00:00");
                } else {
                    proof {
                        use_type_invariant(now);
                        use_type_invariant(*deadline);
                        lemma_seconds_left_before_deadline(deadline@, now@);
                    }
                    let left = deadline.signed_duration_since(&now).num_seconds();
                    text.append(format_clock(left as u64).as_str());
                }
            },
            None => {},
        }
        let class = match timer.mode {
            TimerMode::Pestering => "pestering",
            TimerMode::Snoozing => "snoozing",
            TimerMode::ShortBreak => "shortbreak",
            TimerMode::LongBreak => "longbreak",
            TimerMode::Focus => "focus",
        };
        let mut tooltip = String::new();
        push_decimal(&mut tooltip, timer.short_breaks as u64);
        tooltip.append(" short breaks left");
        WaybarOutput {
            text,
            alt: "".to_string(),
            tooltip,
            class: class.to_string(),
            percentage: 0,
        }
    }

    /// An error message.
    pub fn error(msg: String) -> (output: Self)
        ensures
            output@ == Display::of_error(msg@),
    {
        WaybarOutput {
            text: msg,
            alt: "".to_string(),
            tooltip: "".to_string(),
            class: "error".to_string(),
            percentage: 0,
        }
    }

    /// The two look the same.
    pub fn same(&self, other: &WaybarOutput) -> (same: bool)
        ensures
            same == (self@ == other@),
    {
        self.text == other.text && self.alt == other.alt && self.tooltip == other.tooltip
            && self.class == other.class && self.percentage == other.percentage
    }
}

impl Clone for WaybarOutput {
    fn clone(&self) -> (copy: Self)
        ensures
            copy@ == self@,
    {
        WaybarOutput {
            text: self.text.clone(),
            alt: self.alt.clone(),
            tooltip: self.tooltip.clone(),
            class: self.class.clone(),
            percentage: self.percentage,
        }
    }
}

/// The seconds that a display has to tell at `now`: those up to the deadline, without a started
/// one, and none once it has passed.
pub open spec fn seconds_to_tell(deadline: Stamp, now: Stamp) -> int {
    let passed = now.secs > deadline.secs || (now.secs == deadline.secs && now.nanos
        > deadline.nanos);
    let left = deadline.nanos_since(now);
    if passed || left < 0 {
        0
    } else {
        left / 1_000_000_000
    }
}

/// The name of the mode is followed by a clock time of so many seconds.
pub open spec fn names_and_tells(text: Seq<char>, name: Seq<char>, secs: int) -> bool {
    exists|face: Seq<char>| #[trigger] reads_as(face, secs) && text == name + ": "@ + face
}

/// An output shows a timer at `now`: the name of its mode, with a clock time of what is left of it
/// if it has a deadline; the short breaks left, as a number; and the class of the mode.
pub open spec fn shows(output: WaybarOutput, timer: TimerState, now: Stamp) -> bool {
    let (name, class) = match timer.mode {
        TimerMode::Pestering => ("Pestering"@, "pestering"@),
        TimerMode::Snoozing => ("Snoozing"@, "snoozing"@),
        TimerMode::ShortBreak => ("Short break"@, "shortbreak"@),
        TimerMode::LongBreak => ("Long break"@, "longbreak"@),
        TimerMode::Focus => ("Focus"@, "focus"@),
    };
    &&& match timer.deadline {
        None => output.text@ == name,
        Some(deadline) => names_and_tells(output.text@, name, seconds_to_tell(deadline@, now)),
    }
    &&& exists|number: Seq<char>| #[trigger]
        is_number(number, timer.short_breaks as nat) && output.tooltip@ == number
            + " short breaks left"@
    &&& output.class@ == class
    &&& output.alt@.len() == 0
    &&& output.percentage == 0
}

/// An output shows an error.
pub open spec fn shows_error(output: WaybarOutput, message: Seq<char>) -> bool {
    &&& output.text@ == message
    &&& output.class@ == "error"@
    &&& output.alt@.len() == 0
    &&& output.tooltip@.len() == 0
    &&& output.percentage == 0
}

/// The value of an output is what it says in each of its fields: two outputs have the same value
/// exactly if they agree in all of them.
pub proof fn law_output_is_its_fields(first: WaybarOutput, second: WaybarOutput)
    ensures
        first@ == second@ <==> {
            &&& first.text@ == second.text@
            &&& first.alt@ == second.alt@
            &&& first.tooltip@ == second.tooltip@
            &&& first.class@ == second.class@
            &&& first.percentage == second.percentage
        },
{
}

/// In every mode the display of a timer names the mode and tells the time that is left of it: as
/// hours, minutes and seconds that add up to the whole seconds from now to the deadline.
pub proof fn law_display_tells_mode_and_time_left(
    output: WaybarOutput,
    timer: TimerState,
    now: Stamp,
)
    requires
        output@ == Display::of_timer(timer@, now),
        now.in_range(),
        timer.deadline matches Some(deadline) ==> deadline@.in_range(),
    ensures
        shows(output, timer, now),
{
    reveal_strlit("");
    let number = decimal(timer.short_breaks as nat);
    law_decimal_is_the_number(timer.short_breaks as nat);
    assert(is_number(number, timer.short_breaks as nat));
    match timer.deadline {
        None => {},
        Some(deadline) => {
            let secs = seconds_to_tell(deadline@, now);
            let face = remaining(deadline@, now);
            if now.is_after(deadline@) {
                reveal_strlit("00:00");
                law_clock_face_tells_the_seconds(0);
                assert(face =~= clock_face(0));
            } else {
                lemma_seconds_left_before_deadline(deadline@, now);
                law_clock_face_tells_the_seconds(seconds_left(deadline@, now) as nat);
            }
            assert(reads_as(face, secs));
        },
    }
}

/// The display of an error is its message, marked as an error.
pub proof fn law_display_of_an_error(output: WaybarOutput, message: Seq<char>)
    requires
        output@ == Display::of_error(message),
    ensures
        shows_error(output, message),
{
    reveal_strlit("");
}

} // verus!
