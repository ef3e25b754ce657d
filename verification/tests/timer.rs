use chrono::{DateTime, Local, TimeDelta, Utc};
use pomidor::config::Config;
use pomidor::time::{Moment, Period, FIRST_SECOND, LAST_SECOND};
use pomidor::timer::{DeadlineOverflow, TimerMode, TimerState, TimerUpdate};

fn at(secs: i64, nanos: u32) -> Moment {
    Moment::new(secs, nanos).unwrap()
}

fn state(mode: TimerMode, short_breaks: u8, deadline: Option<Moment>) -> TimerState {
    TimerState { deadline, short_breaks, mode }
}

fn snooze(secs: u64) -> TimerUpdate {
    TimerUpdate::Snooze { time: Period::from_secs(secs) }
}

#[test]
fn moment_takes_what_the_calendar_holds() {
    assert!(Moment::new(FIRST_SECOND, 0).is_some());
    assert!(Moment::new(FIRST_SECOND - 1, 0).is_none());
    assert!(Moment::new(LAST_SECOND, 1_999_999_999).is_some());
    assert!(Moment::new(LAST_SECOND + 1, 0).is_none());
    assert!(Moment::new(59, 1_000_000_000).is_some());
    assert!(Moment::new(-1, 1_000_000_000).is_some());
    assert!(Moment::new(58, 1_000_000_000).is_none());
    assert!(Moment::new(59, 2_000_000_000).is_none());
    assert_eq!((at(-5, 7).secs(), at(-5, 7).nanos()), (-5, 7));
    for secs in [FIRST_SECOND - 1, FIRST_SECOND, -61, -60, -1, 0, 59, 60, 119, LAST_SECOND, LAST_SECOND + 1] {
        for nanos in [0, 999_999_999, 1_000_000_000, 1_999_999_999, 2_000_000_000] {
            assert_eq!(
                Moment::new(secs, nanos).is_some(),
                DateTime::from_timestamp(secs, nanos).is_some()
            );
        }
    }
    assert_eq!(DateTime::<Utc>::MIN_UTC.timestamp(), FIRST_SECOND);
    assert_eq!(DateTime::<Utc>::MAX_UTC.timestamp(), LAST_SECOND);
}

#[test]
fn period_counts_seconds_and_nanoseconds() {
    let period = Period::new(3, 999_999_999).unwrap();
    assert_eq!(period.as_secs(), 3);
    assert_eq!(period.subsec_nanos(), 999_999_999);
    assert_eq!(period.as_millis(), 3_999);
    assert!(Period::new(0, 1_000_000_000).is_none());
    assert_eq!(Period::new(u64::MAX, 999_999_999).unwrap().as_millis(), u64::MAX as u128 * 1_000 + 999);
}

#[test]
fn new_timer_pesters_with_all_breaks() {
    assert_eq!(TimerState::new(&Config::default()), state(TimerMode::Pestering, 3, None));
}

#[test]
fn pestering_leads_to_focus_with_all_breaks() {
    let mut timer = state(TimerMode::Pestering, 0, None);
    assert_eq!(timer.on_deadline_at(&Config::default(), at(1_000, 5)), Ok(()));
    assert_eq!(timer, state(TimerMode::Focus, 3, Some(at(1_000 + 25 * 60, 5))));
}

#[test]
fn snoozing_leads_back_to_pestering() {
    let mut timer = state(TimerMode::Snoozing, 2, Some(at(10, 0)));
    assert_eq!(timer.on_deadline_at(&Config::default(), at(11, 0)), Ok(()));
    assert_eq!(timer, state(TimerMode::Pestering, 2, None));
}

#[test]
fn breaks_lead_to_focus() {
    for mode in [TimerMode::ShortBreak, TimerMode::LongBreak] {
        let mut timer = state(mode, 2, Some(at(10, 0)));
        assert_eq!(timer.on_deadline_at(&Config::default(), at(11, 0)), Ok(()));
        assert_eq!(timer, state(TimerMode::Focus, 2, Some(at(11 + 25 * 60, 0))));
    }
}

#[test]
fn focus_leads_to_a_break() {
    let mut timer = state(TimerMode::Focus, 2, Some(at(10, 0)));
    assert_eq!(timer.on_deadline_at(&Config::default(), at(11, 0)), Ok(()));
    assert_eq!(timer, state(TimerMode::ShortBreak, 1, Some(at(11 + 5 * 60, 0))));
    let mut timer = state(TimerMode::Focus, 0, Some(at(10, 0)));
    assert_eq!(timer.on_deadline_at(&Config::default(), at(11, 0)), Ok(()));
    assert_eq!(timer, state(TimerMode::LongBreak, 3, Some(at(11 + 30 * 60, 0))));
}

#[test]
fn long_break_comes_after_all_short_breaks() {
    let mut config = Config::default();
    config.timer.short_breaks = 2;
    let mut timer = TimerState::new(&config);
    let mut modes: Vec<(TimerMode, u8)> = Vec::new();
    for n in 0..13 {
        timer.on_deadline_at(&config, at(n * 3_600, 0)).unwrap();
        modes.push((timer.mode, timer.short_breaks));
    }
    let cycle = vec![
        (TimerMode::Focus, 2),
        (TimerMode::ShortBreak, 1),
        (TimerMode::Focus, 1),
        (TimerMode::ShortBreak, 0),
        (TimerMode::Focus, 0),
        (TimerMode::LongBreak, 2),
    ];
    let mut expected = cycle.clone();
    expected.extend(cycle.clone());
    expected.push(cycle[0]);
    assert_eq!(modes, expected);
}

#[test]
fn skip_ends_the_mode() {
    let config = Config::default();
    let mut skipped = state(TimerMode::Focus, 1, Some(at(500, 0)));
    let mut ended = skipped;
    assert_eq!(skipped.on_update_at(&config, TimerUpdate::Skip, at(20, 0)), Ok(()));
    assert_eq!(ended.on_deadline_at(&config, at(20, 0)), Ok(()));
    assert_eq!(skipped, ended);
    assert_eq!(skipped, state(TimerMode::ShortBreak, 0, Some(at(320, 0))));
}

#[test]
fn reset_starts_over() {
    let config = Config::default();
    let mut timer = state(TimerMode::Focus, 1, Some(at(500, 0)));
    assert_eq!(timer.on_update_at(&config, TimerUpdate::Reset, at(20, 0)), Ok(()));
    assert_eq!(timer, TimerState::new(&config));
}

#[test]
fn snoozes_add_up() {
    let config = Config::default();
    let mut twice = TimerState::new(&config);
    assert_eq!(twice.on_update_at(&config, snooze(60), at(100, 1)), Ok(()));
    assert_eq!(twice, state(TimerMode::Snoozing, 3, Some(at(160, 1))));
    assert_eq!(twice.on_update_at(&config, snooze(30), at(120, 0)), Ok(()));
    let mut once = TimerState::new(&config);
    assert_eq!(once.on_update_at(&config, snooze(90), at(100, 1)), Ok(()));
    assert_eq!(twice, once);
    assert_eq!(once, state(TimerMode::Snoozing, 3, Some(at(190, 1))));
}

#[test]
fn snooze_without_a_deadline_counts_from_now() {
    let mut timer = state(TimerMode::Snoozing, 1, None);
    assert_eq!(timer.on_update_at(&Config::default(), snooze(5), at(7, 0)), Ok(()));
    assert_eq!(timer, state(TimerMode::Snoozing, 1, Some(at(12, 0))));
}

#[test]
fn only_pestering_is_snoozed() {
    for mode in [TimerMode::Focus, TimerMode::ShortBreak, TimerMode::LongBreak] {
        let mut timer = state(mode, 1, Some(at(40, 0)));
        assert_eq!(timer.on_update_at(&Config::default(), snooze(u64::MAX), at(7, 0)), Ok(()));
        assert_eq!(timer, state(mode, 1, Some(at(40, 0))));
    }
}

#[test]
fn deadline_outside_of_the_calendar_changes_nothing() {
    let mut config = Config::default();
    let before = TimerState::new(&config);
    let mut timer = before;
    assert_eq!(timer.on_deadline_at(&config, at(LAST_SECOND, 0)), Err(DeadlineOverflow {}));
    assert_eq!(timer, before);
    assert_eq!(timer.on_update_at(&config, snooze(u64::MAX), at(0, 0)), Err(DeadlineOverflow {}));
    assert_eq!(timer, before);
    config.timer.focus_duration = Period::from_secs(LAST_SECOND as u64);
    assert_eq!(timer.on_deadline_at(&config, at(0, 999_999_999)), Ok(()));
    assert_eq!(timer.deadline, Some(at(LAST_SECOND, 999_999_999)));
    config.timer.focus_duration = Period::new(LAST_SECOND as u64, 1).unwrap();
    let mut timer = before;
    assert_eq!(timer.on_deadline_at(&config, at(0, 999_999_999)), Err(DeadlineOverflow {}));
}

#[test]
fn leap_seconds_are_passed_through() {
    let mut config = Config::default();
    config.timer.focus_duration = Period::new(0, 300_000_000).unwrap();
    let mut timer = TimerState::new(&config);
    timer.on_deadline_at(&config, at(59, 1_500_000_000)).unwrap();
    assert_eq!(timer.deadline, Some(at(59, 1_800_000_000)));
    let mut timer = TimerState::new(&config);
    timer.on_deadline_at(&config, at(59, 1_800_000_000)).unwrap();
    assert_eq!(timer.deadline, Some(at(60, 100_000_000)));
    config.timer.focus_duration = Period::from_secs(1);
    let mut timer = TimerState::new(&config);
    timer.on_deadline_at(&config, at(59, 1_500_000_000)).unwrap();
    assert_eq!(timer.deadline, Some(at(60, 500_000_000)));
}

#[test]
fn deadlines_are_those_of_the_calendar() {
    let starts = [(0, 0), (59, 1_999_999_999), (86_399, 1_000_000_000), (-1, 999_999_999), (1_700_000_000, 123)];
    let lengths = [(0, 0), (0, 1), (0, 999_999_999), (1, 0), (86_400, 1), (1 << 40, 5), (1 << 60, 0)];
    for (secs, nanos) in starts {
        for (length, fraction) in lengths {
            let mut config = Config::default();
            config.timer.focus_duration = Period::new(length, fraction).unwrap();
            let mut timer = TimerState::new(&config);
            let result = timer.on_deadline_at(&config, at(secs, nanos));
            let expected = TimeDelta::from_std(std::time::Duration::new(length, fraction))
                .ok()
                .and_then(|delta| {
                    DateTime::from_timestamp(secs, nanos).unwrap().checked_add_signed(delta)
                });
            match expected {
                Some(end) => {
                    assert_eq!(result, Ok(()));
                    assert_eq!(timer.deadline, Some(at(end.timestamp(), end.timestamp_subsec_nanos())));
                }
                None => assert_eq!(result, Err(DeadlineOverflow {})),
            }
        }
    }
}

#[test]
fn the_clock_is_read() {
    let config = Config::default();
    let length = 25 * 60;
    let before = Local::now().timestamp();
    let mut ended = TimerState::new(&config);
    ended.on_deadline(&config).unwrap();
    let mut snoozed = TimerState::new(&config);
    snoozed.on_update(&config, snooze(length as u64)).unwrap();
    let after = Local::now().timestamp();
    for timer in [ended, snoozed] {
        let secs = timer.deadline.unwrap().secs();
        assert!(before + length <= secs && secs <= after + length);
    }
    assert_eq!(ended.mode, TimerMode::Focus);
    assert_eq!(snoozed.mode, TimerMode::Snoozing);
}

#[test]
fn timers_are_told_apart() {
    let timer = state(TimerMode::Focus, 1, Some(at(40, 0)));
    assert!(timer.same(&timer));
    assert!(!timer.same(&state(TimerMode::Focus, 1, Some(at(40, 1)))));
    assert!(!timer.same(&state(TimerMode::Focus, 1, None)));
    assert!(!timer.same(&state(TimerMode::Focus, 2, Some(at(40, 0)))));
    assert!(!timer.same(&state(TimerMode::Snoozing, 1, Some(at(40, 0)))));
}

#[test]
fn modes_have_names() {
    assert_eq!(TimerMode::Pestering.to_string(), "Pestering");
    assert_eq!(TimerMode::Snoozing.to_string(), "Snoozing");
    assert_eq!(TimerMode::ShortBreak.to_string(), "Short break");
    assert_eq!(TimerMode::LongBreak.to_string(), "Long break");
    assert_eq!(TimerMode::Focus.to_string(), "Focus");
}

#[test]
fn snoozes_add_up_while_snoozing() {
    let config = Config::default();
    for deadline in [Some(at(500, 7)), Some(at(59, 1_500_000_000)), None] {
        let mut twice = state(TimerMode::Snoozing, 1, deadline);
        let mut once = twice;
        twice.on_update_at(&config, snooze(60), at(100, 1)).unwrap();
        twice.on_update_at(&config, snooze(30), at(120, 0)).unwrap();
        once.on_update_at(&config, snooze(90), at(100, 1)).unwrap();
        assert_eq!(twice, once);
    }
}

#[test]
fn end_of_snooze_and_reset_never_overflow() {
    let config = Config::default();
    let mut timer = state(TimerMode::Snoozing, 0, Some(at(LAST_SECOND, 0)));
    assert_eq!(timer.on_deadline_at(&config, at(LAST_SECOND, 0)), Ok(()));
    let mut timer = state(TimerMode::Focus, 0, Some(at(LAST_SECOND, 0)));
    assert_eq!(timer.on_update_at(&config, TimerUpdate::Reset, at(LAST_SECOND, 0)), Ok(()));
}

#[test]
fn no_short_breaks_means_long_breaks_only() {
    let mut config = Config::default();
    config.timer.short_breaks = 0;
    let mut timer = TimerState::new(&config);
    for mode in [TimerMode::Focus, TimerMode::LongBreak, TimerMode::Focus, TimerMode::LongBreak] {
        timer.on_deadline_at(&config, at(0, 0)).unwrap();
        assert_eq!((timer.mode, timer.short_breaks), (mode, 0));
    }
}
