use pomidor::config::Config;
use pomidor::text::{format_clock, push_decimal};
use pomidor::time::Moment;
use pomidor::timer::{TimerMode, TimerState};
use pomidor::waybar::WaybarOutput;

fn at(secs: i64, nanos: u32) -> Moment {
    Moment::new(secs, nanos).unwrap()
}

fn text(deadline: Moment, now: Moment) -> String {
    let timer = TimerState { deadline: Some(deadline), short_breaks: 1, mode: TimerMode::Focus };
    WaybarOutput::new(&Config::default(), &timer, now).text
}

#[test]
fn numbers_are_written_in_decimal() {
    for n in [0, 9, 10, 99, 100, 12_345, u64::MAX] {
        let mut out = "n=".to_string();
        push_decimal(&mut out, n);
        assert_eq!(out, format!("n={}", n));
        assert_eq!(out[2..].parse::<u64>().unwrap(), n);
    }
}

#[test]
fn clock_shows_hours_only_if_there_are_any() {
    assert_eq!(format_clock(0), "00:00");
    assert_eq!(format_clock(61), "01:01");
    assert_eq!(format_clock(3_599), "59:59");
    assert_eq!(format_clock(3_600), "1:00:00");
    assert_eq!(format_clock(100 * 3_600 + 62), "100:01:02");
}

#[test]
fn timer_without_deadline_shows_its_mode() {
    let timer = TimerState::new(&Config::default());
    let output = WaybarOutput::new(&Config::default(), &timer, at(0, 0));
    assert_eq!(
        output,
        WaybarOutput {
            text: "Pestering".to_string(),
            alt: "".to_string(),
            tooltip: "3 short breaks left".to_string(),
            class: "pestering".to_string(),
            percentage: 0,
        }
    );
}

#[test]
fn timer_with_deadline_shows_the_time_left() {
    assert_eq!(text(at(1_500, 0), at(0, 0)), "Focus: 25:00");
    assert_eq!(text(at(1_500, 0), at(0, 1)), "Focus: 24:59");
    assert_eq!(text(at(8_000, 5), at(0, 5)), "Focus: 2:13:20");
    assert_eq!(text(at(10, 5), at(10, 5)), "Focus: 00:00");
    assert_eq!(text(at(10, 5), at(10, 6)), "Focus: 00:00");
    assert_eq!(text(at(10, 5), at(5_000, 0)), "Focus: 00:00");
}

#[test]
fn leap_second_counts_within_its_day() {
    assert_eq!(text(at(61, 0), at(59, 1_000_000_000)), "Focus: 00:02");
    assert_eq!(text(at(60, 0), at(59, 0)), "Focus: 00:01");
    assert_eq!(text(at(86_400, 0), at(86_399, 1_900_000_000)), "Focus: 00:00");
    assert_eq!(text(at(59, 1_000_000_000), at(59, 0)), "Focus: 00:01");
    assert_eq!(text(at(86_400 + 59, 1_000_000_000), at(60, 0)), "Focus: 23:59:59");
}

#[test]
fn times_left_are_those_of_the_calendar() {
    let points = [(0, 0), (59, 0), (59, 1_500_000_000), (60, 999_999_999), (86_399, 1_900_000_000), (86_400, 0), (200_000, 7)];
    for (secs, nanos) in points {
        for (end, fraction) in points {
            let now = chrono::DateTime::from_timestamp(secs, nanos).unwrap();
            let deadline = chrono::DateTime::from_timestamp(end, fraction).unwrap();
            let since = deadline.signed_duration_since(now);
            let (hours, minutes, seconds) =
                (since.num_hours(), since.num_minutes() % 60, since.num_seconds() % 60);
            let expected = if now > deadline {
                "00:00".to_string()
            } else if hours > 0 {
                format!("{hours}:{minutes:02}:{seconds:02}")
            } else {
                format!("{minutes:02}:{seconds:02}")
            };
            assert_eq!(text(at(end, fraction), at(secs, nanos)), format!("Focus: {}", expected));
        }
    }
}

#[test]
fn each_mode_has_its_class() {
    let modes = [
        (TimerMode::Pestering, "pestering"),
        (TimerMode::Snoozing, "snoozing"),
        (TimerMode::ShortBreak, "shortbreak"),
        (TimerMode::LongBreak, "longbreak"),
        (TimerMode::Focus, "focus"),
    ];
    for (mode, class) in modes {
        let timer = TimerState { deadline: None, short_breaks: 255, mode };
        let output = WaybarOutput::new(&Config::default(), &timer, at(0, 0));
        assert_eq!(output.class, class);
        assert_eq!(output.class, format!("{:?}", mode).to_lowercase());
        assert_eq!(output.text, mode.to_string());
        assert_eq!(output.tooltip, "255 short breaks left");
    }
}

#[test]
fn time_left_does_not_grow() {
    let mut last = i64::MAX;
    for now in 0..120 {
        let shown = text(at(100, 0), at(now, 500_000_000));
        let (minutes, seconds) = shown["Focus: ".len()..].split_once(':').unwrap();
        let left = minutes.parse::<i64>().unwrap() * 60 + seconds.parse::<i64>().unwrap();
        assert!(left <= last);
        last = left;
    }
    assert_eq!(last, 0);
}

#[test]
fn new_mode_shows_its_whole_length() {
    let config = Config::default();
    let mut timer = TimerState::new(&config);
    for expected in ["Focus: 25:00", "Short break: 05:00"] {
        timer.on_deadline_at(&config, at(77, 123)).unwrap();
        assert_eq!(WaybarOutput::new(&config, &timer, at(77, 123)).text, expected);
    }
}

#[test]
fn error_is_shown_as_such() {
    assert_eq!(
        WaybarOutput::error("gone".to_string()),
        WaybarOutput {
            text: "gone".to_string(),
            alt: "".to_string(),
            tooltip: "".to_string(),
            class: "error".to_string(),
            percentage: 0,
        }
    );
}

#[test]
fn outputs_are_told_apart() {
    let output = WaybarOutput::error("gone".to_string());
    assert!(output.same(&output.clone()));
    let mut other = output.clone();
    other.tooltip = "there".to_string();
    assert!(!output.same(&other));
    let mut other = output.clone();
    other.percentage = 1;
    assert!(!output.same(&other));
}

#[test]
fn only_the_time_between_is_shown() {
    for (deadline, now) in [((100, 5), (7, 6)), ((10, 0), (10, 1)), ((9_000, 0), (1, 999_999_999))] {
        let shown = text(at(deadline.0, deadline.1), at(now.0, now.1));
        let shifted = text(at(deadline.0 + 86_399, deadline.1), at(now.0 + 86_399, now.1));
        assert_eq!(shown, shifted);
    }
}
