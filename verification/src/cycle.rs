//! What holds of the timer over any course of deadlines and updates.

use crate::config::TimerConfig;
use crate::time::{Period, Stamp};
use crate::timer::{
    changes_to, DeadlineOverflow, Timer, TimerMode, TimerState, TimerUpdate,
};
use vstd::prelude::*;

verus! {

/// A reset gives the timer that was there before anything happened, whatever has happened since.
pub proof fn law_reset_starts_over(timer: Timer, config: TimerConfig, now: Stamp)
    ensures
        timer.updated(config, TimerUpdate::Reset, now) == Timer::initial(config),
{
}

/// A timer that is pestering has no deadline and any other has one: so it is at first, and neither
/// the end of a mode nor an update changes it.
pub proof fn law_only_pestering_has_no_deadline(
    timer: Timer,
    config: TimerConfig,
    update: TimerUpdate,
    now: Stamp,
)
    requires
        timer.is_settled(),
    ensures
        Timer::initial(config).is_settled(),
        timer.advanced(config, now).is_settled(),
        timer.updated(config, update, now).is_settled(),
{
}

/// There are never more short breaks left than the configuration has.
pub proof fn law_short_breaks_are_bounded(
    timer: Timer,
    config: TimerConfig,
    update: TimerUpdate,
    now: Stamp,
)
    requires
        timer.short_breaks <= config.short_breaks,
    ensures
        Timer::initial(config).short_breaks <= config.short_breaks,
        timer.advanced(config, now).short_breaks <= config.short_breaks,
        timer.updated(config, update, now).short_breaks <= config.short_breaks,
{
}

/// Skipping a mode leads where the end of that mode leads.
pub proof fn law_skip_is_an_early_deadline(timer: Timer, config: TimerConfig, now: Stamp)
    ensures
        timer.updated(config, TimerUpdate::Skip, now) == timer.advanced(config, now),
{
}

/// Breaks and focus periods cannot be snoozed.
pub proof fn law_only_pestering_is_snoozed(
    timer: Timer,
    config: TimerConfig,
    time: Period,
    now: Stamp,
)
    requires
        timer.mode is ShortBreak || timer.mode is LongBreak || timer.mode is Focus,
    ensures
        timer.updated(config, TimerUpdate::Snooze { time }, now) == timer,
{
}

/// Waiting twice is waiting once for the sum of both.
pub proof fn law_plus_adds_up(start: Stamp, first: nat, second: nat)
    requires
        start.in_range(),
    ensures
        start.plus(first).plus(second) == start.plus(first + second),
{
}

/// Snoozing twice is snoozing once for the sum of both times, whenever the second request comes:
/// for a timer that is pestering, and for one that is snoozing already.
pub proof fn law_snoozes_add_up(
    timer: Timer,
    config: TimerConfig,
    first: Period,
    second: Period,
    both: Period,
    now: Stamp,
    later: Stamp,
)
    requires
        timer.mode is Pestering || timer.mode is Snoozing,
        timer.fits(),
        both@ == first@ + second@,
        now.in_range(),
    ensures
        timer.updated(config, TimerUpdate::Snooze { time: first }, now).updated(
            config,
            TimerUpdate::Snooze { time: second },
            later,
        ) == timer.updated(config, TimerUpdate::Snooze { time: both }, now),
{
    law_plus_adds_up(now, first@, second@);
    match timer.deadline {
        Some(deadline) => law_plus_adds_up(deadline, first@, second@),
        None => {},
    }
}

/// How long the mode that follows lasts.
pub open spec fn next_length(timer: Timer, config: TimerConfig) -> nat {
    match timer.next_mode() {
        TimerMode::ShortBreak => config.short_break_duration@,
        TimerMode::LongBreak => config.long_break_duration@,
        _ => config.focus_duration@,
    }
}

/// The end of a mode at `now` overflows the calendar exactly if the mode is not a snooze and the
/// one that follows would end outside of the calendar. The number of short breaks never stands in
/// the way, also if none are configured.
pub proof fn law_deadline_overflows_exactly_outside_the_calendar(
    timer: Timer,
    config: TimerConfig,
    now: Stamp,
)
    ensures
        !timer.advanced(config, now).fits() <==> timer.mode !is Snoozing && !now.plus(
            next_length(timer, config),
        ).in_range(),
        timer.next_mode() is ShortBreak ==> timer.short_breaks >= 1,
{
}

/// An update at `now` overflows the calendar exactly if it is a skip that does, or a snooze of a
/// timer that can be snoozed and that would then end outside of the calendar. A reset never does.
pub proof fn law_update_overflows_exactly_outside_the_calendar(
    timer: Timer,
    config: TimerConfig,
    update: TimerUpdate,
    now: Stamp,
)
    requires
        timer.fits(),
    ensures
        !timer.updated(config, update, now).fits() <==> match update {
            TimerUpdate::Skip => !timer.advanced(config, now).fits(),
            TimerUpdate::Reset => false,
            TimerUpdate::Snooze { time } => match (timer.mode, timer.deadline) {
                (TimerMode::Pestering, _) => !now.plus(time@).in_range(),
                (TimerMode::Snoozing, Some(deadline)) => !deadline.plus(time@).in_range(),
                (TimerMode::Snoozing, None) => !now.plus(time@).in_range(),
                _ => false,
            },
        },
{
}

/// The timer after each of the given times has ended the mode it was in.
pub open spec fn course(start: Timer, config: TimerConfig, times: Seq<Stamp>) -> Timer
    decreases times.len(),
{
    if times.len() == 0 {
        start
    } else {
        course(start, config, times.drop_last()).advanced(config, times.last())
    }
}

/// How many modes there are from one focus period that follows a long break to the next: each
/// break, long or short, with the focus period before it.
pub open spec fn modes_in_cycle(config: TimerConfig) -> int {
    2 * (config.short_breaks + 1)
}

/// A timer that nothing but deadlines and skips moves goes round in cycles. Each begins with a
/// focus period, goes on with breaks and focus periods in turn, has as many short breaks as the
/// configuration says, and ends with a long break.
pub proof fn law_long_break_after_all_short_breaks(config: TimerConfig, times: Seq<Stamp>)
    requires
        times.len() > 0,
    ensures
        ({
            let timer = course(Timer::initial(config), config, times);
            let place = (times.len() - 1) % modes_in_cycle(config);
            if place % 2 == 0 {
                timer.mode is Focus && timer.short_breaks == config.short_breaks - place / 2
            } else if place < modes_in_cycle(config) - 1 {
                timer.mode is ShortBreak && timer.short_breaks == config.short_breaks - (place + 1)
                    / 2
            } else {
                timer.mode is LongBreak && timer.short_breaks == config.short_breaks
            }
        }),
    decreases times.len(),
{
    let n = times.len() - 1;
    let cycle = modes_in_cycle(config);
    let before = times.drop_last();
    if n == 0 {
        assert(course(Timer::initial(config), config, before) == Timer::initial(config));
        vstd::arithmetic::div_mod::lemma_small_mod(0, cycle as nat);
    } else {
        law_long_break_after_all_short_breaks(config, before);
        let place = (n - 1) % cycle;
        assert(n % cycle == if place == cycle - 1 { 0 } else { place + 1 }) by (nonlinear_arith)
            requires
                cycle >= 2,
                n >= 1,
                place == (n - 1) % cycle,
        {
            vstd::arithmetic::div_mod::lemma_fundamental_div_mod(n - 1, cycle);
            let quotient = (n - 1) / cycle;
            if place == cycle - 1 {
                vstd::arithmetic::div_mod::lemma_fundamental_div_mod_converse(
                    n,
                    cycle,
                    quotient + 1,
                    0,
                );
            } else {
                vstd::arithmetic::div_mod::lemma_fundamental_div_mod_converse(
                    n,
                    cycle,
                    quotient,
                    place + 1,
                );
            }
        }
    }
}

/// The timer's mode ends `length` nanoseconds after `start`.
pub open spec fn ends_after(timer: TimerState, start: Stamp, length: nat) -> bool {
    &&& timer.deadline matches Some(end)
    &&& end@ == start.plus(length)
    &&& 0 <= start.nanos < 1_000_000_000 ==> end@.secs * 1_000_000_000 + end@.nanos == start.secs
        * 1_000_000_000 + start.nanos + length
}

/// The two timers have the same mode, the same deadline and the same short breaks left.
pub open spec fn same_timer(first: TimerState, second: TimerState) -> bool {
    &&& first.mode == second.mode
    &&& first.short_breaks == second.short_breaks
    &&& match (first.deadline, second.deadline) {
        (None, None) => true,
        (Some(a), Some(b)) => a@.secs == b@.secs && a@.nanos == b@.nanos,
        _ => false,
    }
}

/// What the end of a mode at `now` leads to. Pestering leads to a focus period with all short
/// breaks, a snooze back to pestering, and a break to a focus period. A focus period leads to a
/// short break, which uses one of them up, or if none is left to a long break, after which all are
/// there again. Each period lasts as long as it is configured to.
pub open spec fn follows(
    before: TimerState,
    config: TimerConfig,
    now: Stamp,
    after: TimerState,
) -> bool {
    match before.mode {
        TimerMode::Pestering => {
            &&& after.mode is Focus
            &&& after.short_breaks == config.short_breaks
            &&& ends_after(after, now, config.focus_duration@)
        },
        TimerMode::Snoozing => {
            &&& after.mode is Pestering
            &&& after.short_breaks == before.short_breaks
            &&& after.deadline is None
        },
        TimerMode::ShortBreak | TimerMode::LongBreak => {
            &&& after.mode is Focus
            &&& after.short_breaks == before.short_breaks
            &&& ends_after(after, now, config.focus_duration@)
        },
        TimerMode::Focus => if before.short_breaks > 0 {
            &&& after.mode is ShortBreak
            &&& after.short_breaks == before.short_breaks - 1
            &&& ends_after(after, now, config.short_break_duration@)
        } else {
            &&& after.mode is LongBreak
            &&& after.short_breaks == config.short_breaks
            &&& ends_after(after, now, config.long_break_duration@)
        },
    }
}

/// What an update at `now` leads to. A skip leads where the end of the mode does. A reset leads to
/// pestering with all short breaks. A snooze stops the pestering for its time, prolongs a snooze
/// by it, and leaves the rest of the modes alone.
pub open spec fn obeys(
    before: TimerState,
    config: TimerConfig,
    update: TimerUpdate,
    now: Stamp,
    after: TimerState,
) -> bool {
    match update {
        TimerUpdate::Skip => follows(before, config, now, after),
        TimerUpdate::Reset => {
            &&& after.mode is Pestering
            &&& after.short_breaks == config.short_breaks
            &&& after.deadline is None
        },
        TimerUpdate::Snooze { time } => match before.mode {
            TimerMode::Pestering => {
                &&& after.mode is Snoozing
                &&& after.short_breaks == before.short_breaks
                &&& ends_after(after, now, time@)
            },
            TimerMode::Snoozing => {
                &&& after.mode is Snoozing
                &&& after.short_breaks == before.short_breaks
                &&& match before.deadline {
                    Some(deadline) => ends_after(after, deadline@, time@),
                    None => ends_after(after, now, time@),
                }
            },
            _ => same_timer(before, after),
        },
    }
}

/// The nanosecond `length` after `start` is not in the calendar any more: it lies behind the end
/// of the last second.
pub open spec fn runs_out(start: Stamp, length: nat) -> bool {
    if start.nanos < 1_000_000_000 {
        start.secs * 1_000_000_000 + start.nanos + length >= 8_210_266_876_800 * 1_000_000_000
    } else {
        !start.plus(length).in_range()
    }
}

/// The value of a timer tells its mode, its deadline and its short breaks, and nothing more: two
/// timers have the same value exactly if they agree in all three.
pub proof fn law_timer_is_its_mode_deadline_and_breaks(first: TimerState, second: TimerState)
    ensures
        first@ == second@ <==> same_timer(first, second),
{
}

/// A new timer pesters, has no deadline and has all its short breaks.
pub proof fn law_new_timer_pesters(timer: TimerState, config: TimerConfig)
    requires
        timer@ == Timer::initial(config),
    ensures
        timer.mode is Pestering,
        timer.deadline is None,
        timer.short_breaks == config.short_breaks,
{
}

/// The end of a mode at a point in the calendar leads on as it should, or, exactly if the period
/// that would follow has no end in the calendar, changes nothing.
pub proof fn law_end_of_a_mode_leads_on(
    before: TimerState,
    config: TimerConfig,
    now: Stamp,
    after: TimerState,
    result: Result<(), DeadlineOverflow>,
)
    requires
        now.in_range(),
        changes_to(before, before@.advanced(config, now), after, result),
    ensures
        result is Ok ==> follows(before, config, now, after),
        result is Err ==> after == before,
        result is Err <==> match before.mode {
            TimerMode::Snoozing => false,
            TimerMode::Focus => runs_out(
                now,
                if before.short_breaks > 0 {
                    config.short_break_duration@
                } else {
                    config.long_break_duration@
                },
            ),
            _ => runs_out(now, config.focus_duration@),
        },
{
}

/// An update at a point in the calendar is obeyed, or, exactly if the new deadline would not be in
/// the calendar, changes nothing.
pub proof fn law_update_is_obeyed(
    before: TimerState,
    config: TimerConfig,
    update: TimerUpdate,
    now: Stamp,
    after: TimerState,
    result: Result<(), DeadlineOverflow>,
)
    requires
        now.in_range(),
        before.deadline matches Some(deadline) ==> deadline@.in_range(),
        changes_to(before, before@.updated(config, update, now), after, result),
    ensures
        result is Ok ==> obeys(before, config, update, now, after),
        result is Err ==> after == before,
        update is Reset ==> result is Ok,
        update matches TimerUpdate::Snooze { time } ==> (result is Err <==> match before.mode {
            TimerMode::Pestering => runs_out(now, time@),
            TimerMode::Snoozing => match before.deadline {
                Some(deadline) => runs_out(deadline@, time@),
                None => runs_out(now, time@),
            },
            _ => false,
        }),
        update is Skip && before.mode is Snoozing ==> result is Ok,
        update is Skip && before.mode is Focus && before.short_breaks > 0 ==> (result is Err
            <==> runs_out(now, config.short_break_duration@)),
        update is Skip && before.mode is Focus && before.short_breaks == 0 ==> (result is Err
            <==> runs_out(now, config.long_break_duration@)),
        update is Skip && before.mode !is Focus && before.mode !is Snoozing ==> (result is Err
            <==> runs_out(now, config.focus_duration@)),
{
}

} // verus!
