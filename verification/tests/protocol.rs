use pomidor::command::{Command, Session, SessionAction, SessionEvent};
use pomidor::config::Config;
use pomidor::daemon::{Daemon, SocketProbe, Turn, Wake};
use pomidor::message::{ClientMessage, DaemonMessage};
use pomidor::serving::{Service, ServiceAction, ServiceEvent};
use pomidor::time::Moment;
use pomidor::timer::{TimerMode, TimerState, TimerUpdate};

fn at(secs: i64) -> Moment {
    Moment::new(secs, 0).unwrap()
}

fn start() -> Daemon {
    Daemon::run(Config::default(), SocketProbe::NotFound).unwrap().0
}

fn request(command: Command) -> (Session, ClientMessage) {
    let config = Config::default();
    let (session, _) = command.run();
    match session.step_at(&config, SessionEvent::Done, at(0)) {
        (session, SessionAction::Send(message)) => {
            (session.step_at(&config, SessionEvent::Done, at(0)).0, message)
        }
        other => panic!("{:?}", other),
    }
}

fn relayed(message: ClientMessage) -> (Service, ClientMessage) {
    let (service, action) = Daemon::on_client(Service::Listening, ServiceEvent::Received(message));
    assert_eq!(action, ServiceAction::Send(DaemonMessage::Ack));
    match Daemon::on_client(service, ServiceEvent::Done) {
        (service, ServiceAction::Relay(message)) => (service, message),
        other => panic!("{:?}", other),
    }
}

#[test]
fn update_reaches_the_timer() {
    let mut daemon = start();
    let (session, message) = request(Command::Update(TimerUpdate::Skip));
    let (_, message) = relayed(message);
    daemon.turn_at(Wake::Message(message), at(40)).unwrap();
    let focus = TimerState { deadline: Some(at(1_540)), short_breaks: 3, mode: TimerMode::Focus };
    assert_eq!(daemon.timer, focus);
    let end = session.step_at(&daemon.config, SessionEvent::Received(DaemonMessage::Ack), at(0));
    assert_eq!(end, (Session::Ended, SessionAction::Finish));
}

#[test]
fn watcher_learns_the_timer() {
    let mut daemon = start();
    let (session, message) = request(Command::Waybar);
    let (service, message) = relayed(message);
    assert_eq!(message, ClientMessage::Ping);
    let (service, action) = Daemon::on_client(service, ServiceEvent::Done);
    assert_eq!(action, ServiceAction::Subscribe);
    let told = match daemon.turn_at(Wake::Message(message), at(40)) {
        Ok(Turn::Go(effects)) => effects.reply.unwrap(),
        other => panic!("{:?}", other),
    };
    let (_, action) = Daemon::on_client(service, ServiceEvent::Changed(told));
    assert_eq!(action, ServiceAction::Send(DaemonMessage::StateChange(daemon.timer)));
    let (session, _) = session.step_at(&daemon.config, SessionEvent::Received(DaemonMessage::Ack), at(0));
    let told = SessionEvent::Received(DaemonMessage::StateChange(told));
    let (session, _) = session.step_at(&daemon.config, told, at(0));
    assert_eq!(session, Session::Watching { timer: daemon.timer, shown: None });
}
