use pomidor::command::{Command, Session, SessionAction, SessionError, SessionEvent};
use pomidor::config::Config;
use pomidor::connection::AckError;
use pomidor::message::{ClientMessage, DaemonMessage};
use pomidor::time::Moment;
use pomidor::timer::{TimerMode, TimerState, TimerUpdate};
use pomidor::waybar::WaybarOutput;

const UPDATE: ClientMessage = ClientMessage::Update(TimerUpdate::Skip);

fn at(secs: i64) -> Moment {
    Moment::new(secs, 0).unwrap()
}

fn focus(deadline: i64) -> TimerState {
    TimerState { deadline: Some(at(deadline)), short_breaks: 1, mode: TimerMode::Focus }
}

fn step(session: Session, event: SessionEvent, secs: i64) -> (Session, SessionAction) {
    session.step_at(&Config::default(), event, at(secs))
}

fn failed(error: SessionError) -> (Session, SessionAction) {
    (Session::Ended, SessionAction::Fail(error))
}

#[test]
fn commands_begin() {
    assert_eq!(Command::Daemon.run(), (Session::Ended, SessionAction::RunDaemon));
    assert_eq!(
        Command::Waybar.run(),
        (Session::Connecting(ClientMessage::Watch), SessionAction::Connect)
    );
    assert_eq!(
        Command::Update(TimerUpdate::Skip).run(),
        (Session::Connecting(UPDATE), SessionAction::Connect)
    );
}

#[test]
fn update_is_sent_and_acknowledged() {
    let (session, _) = Command::Update(TimerUpdate::Skip).run();
    let (session, action) = step(session, SessionEvent::Done, 0);
    assert_eq!(action, SessionAction::Send(UPDATE));
    let (session, action) = step(session, SessionEvent::Done, 0);
    assert_eq!(action, SessionAction::Receive);
    let end = step(session, SessionEvent::Received(DaemonMessage::Ack), 0);
    assert_eq!(end, (Session::Ended, SessionAction::Finish));
}

#[test]
fn watcher_displays_what_has_changed() {
    let (session, _) = Command::Waybar.run();
    let (session, action) = step(session, SessionEvent::Done, 0);
    assert_eq!(action, SessionAction::Send(ClientMessage::Watch));
    let (session, action) = step(session, SessionEvent::Done, 0);
    assert_eq!(action, SessionAction::Receive);
    let (session, action) = step(session, SessionEvent::Received(DaemonMessage::Ack), 0);
    assert_eq!((&session, action), (&Session::AwaitingTimer, SessionAction::Receive));
    let told = SessionEvent::Received(DaemonMessage::StateChange(focus(100)));
    let (session, action) = step(session, told, 0);
    assert_eq!(action, SessionAction::ReceiveWithin(500));

    // The first look at the timer is displayed.
    let (session, action) = step(session, SessionEvent::TimedOut, 10);
    let shown = WaybarOutput::new(&Config::default(), &focus(100), at(10));
    assert_eq!(shown.text, "Focus: 01:30");
    assert_eq!(action, SessionAction::Print(shown.clone()));
    let (session, action) = step(session, SessionEvent::Done, 10);
    assert_eq!(action, SessionAction::ReceiveWithin(500));
    assert_eq!(session, Session::Watching { timer: focus(100), shown: Some(shown) });

    // The same again is not.
    let (session, action) = step(session, SessionEvent::TimedOut, 10);
    assert_eq!(action, SessionAction::ReceiveWithin(500));
    let (session, action) = step(session, SessionEvent::Received(DaemonMessage::Ack), 10);
    assert_eq!(action, SessionAction::ReceiveWithin(500));

    // A new timer is, and a later time.
    let told = SessionEvent::Received(DaemonMessage::StateChange(focus(200)));
    let (session, action) = step(session, told, 10);
    let shown = WaybarOutput::new(&Config::default(), &focus(200), at(10));
    assert_eq!(action, SessionAction::Print(shown));
    let (session, _) = step(session, SessionEvent::Done, 10);
    let (session, action) = step(session, SessionEvent::TimedOut, 11);
    let shown = WaybarOutput::new(&Config::default(), &focus(200), at(11));
    assert_eq!(action, SessionAction::Print(shown));
    let (session, _) = step(session, SessionEvent::Done, 11);

    // So is the end.
    let (session, action) = step(session, SessionEvent::Failed, 12);
    let gone = WaybarOutput::error("connection to daemon closed".to_string());
    assert_eq!(action, SessionAction::Print(gone));
    assert_eq!(step(session, SessionEvent::Done, 12), (Session::Ended, SessionAction::Finish));
}

#[test]
fn failures_end_the_session() {
    let watch = ClientMessage::Watch;
    let timer = DaemonMessage::StateChange(focus(1));
    let shown = WaybarOutput::error("x".to_string());
    let cases = vec![
        (Session::Connecting(watch), SessionEvent::Failed, SessionError::NotConnected),
        (Session::Sending(watch), SessionEvent::Failed, SessionError::WatchNotSent),
        (Session::Sending(UPDATE), SessionEvent::Failed, SessionError::UpdateNotSent),
        (Session::AwaitingAck(watch), SessionEvent::Failed, SessionError::Ack(AckError::NoReply)),
        (
            Session::AwaitingAck(UPDATE),
            SessionEvent::Received(timer),
            SessionError::Ack(AckError::Unexpected(timer)),
        ),
        (Session::AwaitingTimer, SessionEvent::Failed, SessionError::NoTimer),
        (Session::AwaitingTimer, SessionEvent::Received(DaemonMessage::Ack), SessionError::NotATimer),
        (Session::Showing { timer: focus(1), shown }, SessionEvent::Failed, SessionError::NotPrinted),
        (Session::Closing, SessionEvent::Failed, SessionError::NotPrinted),
    ];
    for (session, event, error) in cases {
        assert_eq!(step(session, event, 0), failed(error));
    }
}

#[test]
fn errors_have_words() {
    let unexpected = AckError::Unexpected(DaemonMessage::Ack);
    for (error, words) in [
        (SessionError::NotConnected, "failed to connect to socket"),
        (SessionError::WatchNotSent, "failed to send watch message"),
        (SessionError::UpdateNotSent, "failed to send update"),
        (SessionError::Ack(AckError::NoReply), "failed to receive ACK"),
        (SessionError::Ack(unexpected), "expected ACK from server"),
        (SessionError::NoTimer, "failed to receive initial timer state"),
        (SessionError::NotATimer, "expected next daemon message to be timer state"),
        (SessionError::NotPrinted, "failed to serialize waybar output"),
    ] {
        assert_eq!(error.message(), words);
    }
}

#[test]
fn watcher_reads_the_clock() {
    let deadline = chrono::Local::now().timestamp() + 7_200 + 30;
    let session = Session::Watching { timer: focus(deadline), shown: None };
    match session.step(&Config::default(), SessionEvent::TimedOut) {
        (_, SessionAction::Print(output)) => assert!(output.text.starts_with("Focus: 2:00:")),
        other => panic!("{:?}", other),
    }
}
