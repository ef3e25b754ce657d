use pomidor::config::Config;
use pomidor::daemon::{Alert, Daemon, Effects, Notice, SocketAction, SocketProbe, StartError, Turn, Wait, Wake};
use pomidor::message::{ClientMessage, DaemonMessage};
use pomidor::path::UnixPath;
use pomidor::serving::{Service, ServiceAction, ServiceError, ServiceEvent};
use pomidor::time::{Moment, Period, LAST_SECOND};
use pomidor::timer::{DeadlineOverflow, TimerMode, TimerState, TimerUpdate};

fn at(secs: i64) -> Moment {
    Moment::new(secs, 0).unwrap()
}

fn start() -> Daemon {
    Daemon::run(Config::default(), SocketProbe::NotFound).unwrap().0
}

fn update(update: TimerUpdate) -> Wake {
    Wake::Message(ClientMessage::Update(update))
}

fn effects(turn: Result<Turn, DeadlineOverflow>) -> Effects {
    match turn {
        Ok(Turn::Go(effects)) => effects,
        other => panic!("{:?}", other),
    }
}

#[test]
fn daemon_starts_unless_there_is_one() {
    let (daemon, action) = Daemon::run(Config::default(), SocketProbe::NotFound).unwrap();
    assert_eq!(action, SocketAction::Bind);
    assert_eq!(daemon.timer, TimerState::new(&Config::default()));
    assert_eq!(daemon.old_timer, daemon.timer);
    assert_eq!(
        Daemon::run(Config::default(), SocketProbe::Refused).unwrap().1,
        SocketAction::RemoveThenBind
    );
    let error = Daemon::run(Config::default(), SocketProbe::Connected).unwrap_err();
    assert_eq!(error, StartError::AlreadyRunning);
    assert_eq!(error.message(), "another instance of Pomidor is already running on the given socket");
    let error = Daemon::run(Config::default(), SocketProbe::OtherError).unwrap_err();
    assert_eq!(error, StartError::ProbeFailed);
    assert_eq!(error.message(), "error testing if old daemon is running");
}

#[test]
fn daemon_waits_up_to_the_deadline() {
    let mut daemon = start();
    assert_eq!(daemon.wait_at(at(5)), Wait::ForMessage);
    assert_eq!(daemon.wait(), Wait::ForMessage);
    daemon.timer.deadline = Some(at(100));
    assert_eq!(daemon.wait_at(Moment::new(97, 1).unwrap()), Wait::UntilDeadline(Period::new(2, 999_999_999).unwrap()));
    assert_eq!(daemon.wait_at(at(100)), Wait::UntilDeadline(Period::from_secs(0)));
    assert_eq!(daemon.wait_at(Moment::new(100, 1).unwrap()), Wait::Elapsed);
    assert_eq!(daemon.wait(), Wait::Elapsed);
}

#[test]
fn change_of_mode_is_told_and_announced() {
    let mut daemon = start();
    daemon.config.sound.sound = Some(UnixPath { bytes: b"/bell".to_vec() });
    let effects = effects(daemon.turn_at(update(TimerUpdate::Skip), at(10)));
    let focus = TimerState { deadline: Some(at(1_510)), short_breaks: 3, mode: TimerMode::Focus };
    assert_eq!(daemon.timer, focus);
    assert_eq!(daemon.old_timer, focus);
    assert_eq!(
        effects,
        Effects {
            reply: None,
            broadcast: Some(focus),
            alert: Some(Alert {
                notice: Some(Notice {
                    summary: "Focus".to_string(),
                    body: "Time to focus! No distractions.".to_string(),
                    timeout: -1,
                }),
                sound: Some(UnixPath { bytes: b"/bell".to_vec() }),
            }),
        }
    );
}

#[test]
fn change_within_a_mode_is_only_told() {
    let mut daemon = start();
    let snooze = TimerUpdate::Snooze { time: Period::from_secs(60) };
    let first = effects(daemon.turn_at(update(snooze), at(10)));
    assert_eq!(first.alert, Some(Alert { notice: None, sound: None }));
    let second = effects(daemon.turn_at(update(snooze), at(20)));
    assert_eq!(daemon.timer.deadline, Some(at(130)));
    assert_eq!(second, Effects { reply: None, broadcast: Some(daemon.timer), alert: None });
}

#[test]
fn ping_is_answered_with_the_timer() {
    let mut daemon = start();
    let effects = effects(daemon.turn_at(Wake::Message(ClientMessage::Ping), at(10)));
    assert_eq!(effects, Effects { reply: Some(daemon.timer), broadcast: None, alert: None });
    assert_eq!(daemon, start());
}

#[test]
fn nothing_changes_without_reason() {
    let nothing = Effects { reply: None, broadcast: None, alert: None };
    let mut daemon = start();
    assert_eq!(effects(daemon.turn_at(Wake::Message(ClientMessage::ReloadConfig), at(10))), nothing);
    assert_eq!(effects(daemon.turn_at(update(TimerUpdate::Reset), at(10))), nothing);
    assert_eq!(daemon, start());
    assert_eq!(daemon.turn_at(Wake::Closed, at(10)), Ok(Turn::Stop));
    assert_eq!(daemon, start());
}

#[test]
fn overflow_leaves_the_daemon_as_it_is() {
    let mut daemon = start();
    assert_eq!(daemon.turn_at(Wake::Deadline, at(LAST_SECOND)), Err(DeadlineOverflow {}));
    assert_eq!(daemon.turn_at(update(TimerUpdate::Skip), at(LAST_SECOND)), Err(DeadlineOverflow {}));
    assert_eq!(daemon, start());
}

#[test]
fn watchers_know_the_timer_after_every_turn() {
    let mut daemon = start();
    let mut known = daemon.timer;
    let wakes = [
        update(TimerUpdate::Skip),
        Wake::Deadline,
        Wake::Message(ClientMessage::Ping),
        update(TimerUpdate::Reset),
        update(TimerUpdate::Snooze { time: Period::from_secs(1) }),
        Wake::Message(ClientMessage::ReloadConfig),
        Wake::Deadline,
    ];
    for (n, wake) in wakes.into_iter().enumerate() {
        let before = daemon.timer;
        let effects = effects(daemon.turn_at(wake, at(n as i64)));
        assert_eq!(effects.broadcast.is_some(), daemon.timer != before);
        assert_eq!(effects.alert.is_some(), daemon.timer.mode != before.mode);
        known = effects.reply.unwrap_or(known);
        known = effects.broadcast.unwrap_or(known);
        assert_eq!(known, daemon.timer);
        assert_eq!(daemon.timer.deadline.is_none(), daemon.timer.mode == TimerMode::Pestering);
    }
}

#[test]
fn daemon_reads_the_clock() {
    let mut daemon = start();
    let before = chrono::Local::now().timestamp();
    effects(daemon.turn(update(TimerUpdate::Skip)));
    let secs = daemon.timer.deadline.unwrap().secs();
    assert!(before + 1_500 <= secs && secs <= chrono::Local::now().timestamp() + 1_500);
    match daemon.wait() {
        Wait::UntilDeadline(period) => assert!(1_490 <= period.as_secs() && period.as_secs() <= 1_500),
        other => panic!("{:?}", other),
    }
    let (mut config, mut timer) = (Config::default(), daemon.timer);
    let message = ClientMessage::Update(TimerUpdate::Skip);
    assert_eq!(Daemon::on_message(&mut config, &mut timer, message), Ok(None));
    assert_eq!(timer.mode, TimerMode::ShortBreak);
    assert_eq!(Daemon::on_message(&mut config, &mut timer, ClientMessage::Ping), Ok(Some(timer)));
    assert_eq!(config, Config::default());
}

#[test]
fn each_message_is_acknowledged_first() {
    let ack = ServiceAction::Send(DaemonMessage::Ack);
    let skip = ClientMessage::Update(TimerUpdate::Skip);
    for (message, next) in [
        (ClientMessage::Ping, (Service::Listening, ServiceAction::Receive)),
        (ClientMessage::Watch, (Service::Pinging, ServiceAction::Relay(ClientMessage::Ping))),
        (skip, (Service::Relaying, ServiceAction::Relay(skip))),
        (ClientMessage::ReloadConfig, (Service::Relaying, ServiceAction::Relay(ClientMessage::ReloadConfig))),
    ] {
        let received = Daemon::on_client(Service::Listening, ServiceEvent::Received(message));
        assert_eq!(received, (Service::Acknowledging(message), ack));
        assert_eq!(Daemon::on_client(received.0, ServiceEvent::Done), next);
    }
    assert_eq!(
        Daemon::on_client(Service::Relaying, ServiceEvent::Done),
        (Service::Listening, ServiceAction::Receive)
    );
}

#[test]
fn watcher_is_told_each_change() {
    let (mut service, mut action) = Daemon::on_client(Service::Pinging, ServiceEvent::Done);
    assert_eq!((service, action), (Service::Watching, ServiceAction::Subscribe));
    for short_breaks in 0..3 {
        let timer = TimerState { deadline: None, short_breaks, mode: TimerMode::Focus };
        (service, action) = Daemon::on_client(service, ServiceEvent::Changed(timer));
        assert_eq!(action, ServiceAction::Send(DaemonMessage::StateChange(timer)));
        (service, action) = Daemon::on_client(service, ServiceEvent::Done);
        assert_eq!((service, action), (Service::Watching, ServiceAction::AwaitChange));
    }
    assert_eq!(Daemon::on_client(service, ServiceEvent::Failed), (Service::Over, ServiceAction::Finish));
}

#[test]
fn service_ends() {
    for (service, error, words) in [
        (Service::Acknowledging(ClientMessage::Ping), ServiceError::AckNotSent, "failed to send ack"),
        (Service::Pinging, ServiceError::PingNotRelayed, "failed to ping state changes"),
        (Service::Relaying, ServiceError::MessageNotRelayed, "failed to relay message to daemon thread"),
        (Service::Telling, ServiceError::ChangeNotSent, "failed to send state change to client"),
    ] {
        let end = Daemon::on_client(service, ServiceEvent::Failed);
        assert_eq!(end, (Service::Over, ServiceAction::Fail(error)));
        assert_eq!(error.message(), words);
    }
    assert_eq!(
        Daemon::on_client(Service::Listening, ServiceEvent::Failed),
        (Service::Over, ServiceAction::Finish)
    );
}

#[test]
fn only_an_update_overflows() {
    let (mut config, mut timer) = (Config::default(), start().timer);
    let now = at(LAST_SECOND);
    let skip = ClientMessage::Update(TimerUpdate::Skip);
    for (message, result) in [
        (ClientMessage::Ping, Ok(Some(timer))),
        (ClientMessage::ReloadConfig, Ok(None)),
        (ClientMessage::Update(TimerUpdate::Reset), Ok(None)),
        (skip, Err(DeadlineOverflow {})),
    ] {
        assert_eq!(Daemon::on_message_at(&mut config, &mut timer, message, now), result);
        assert_eq!(timer, start().timer);
    }
}

#[test]
fn one_ping_is_relayed_for_a_watcher() {
    let timer = start().timer;
    let watch = ServiceEvent::Received(ClientMessage::Watch);
    let events = [
        ServiceEvent::Received(ClientMessage::Ping),
        ServiceEvent::Done,
        watch,
        ServiceEvent::Done,
        ServiceEvent::Done,
        ServiceEvent::Changed(timer),
        ServiceEvent::Done,
        ServiceEvent::Changed(timer),
        ServiceEvent::Done,
        watch,
        ServiceEvent::Done,
        watch,
    ];
    let mut service = Service::Listening;
    let mut pings = 0;
    for event in events {
        let (next, action) = Daemon::on_client(service, event);
        service = next;
        if action == ServiceAction::Relay(ClientMessage::Ping) {
            pings += 1;
        }
    }
    assert_eq!(pings, 1);
    assert_eq!(service, Service::Over);
}
