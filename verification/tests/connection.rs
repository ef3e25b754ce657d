use pomidor::connection::{AckError, Connection, EndOfStream};
use pomidor::message::DaemonMessage;
use pomidor::timer::{TimerMode, TimerState};

fn send(payloads: &[&[u8]]) -> Vec<u8> {
    let mut stream: Vec<u8> = Vec::new();
    for payload in payloads {
        stream.extend(Connection::header(payload.len()));
        stream.extend_from_slice(payload);
    }
    stream
}

fn receive(stream: &[u8]) -> (Vec<Vec<u8>>, EndOfStream) {
    let mut connection = Connection::new();
    let mut messages: Vec<Vec<u8>> = Vec::new();
    let mut rest = stream;
    while connection.wanted() <= rest.len() {
        let (bytes, more) = rest.split_at(connection.wanted());
        rest = more;
        if let Some(message) = connection.on_bytes(bytes.to_vec()) {
            messages.push(message);
        }
    }
    (messages, connection.on_end())
}

#[test]
fn length_is_sent_least_significant_byte_first() {
    assert_eq!(Connection::header(0), vec![0, 0, 0, 0]);
    assert_eq!(Connection::header(1), vec![1, 0, 0, 0]);
    assert_eq!(Connection::header(0x0403_0201), vec![1, 2, 3, 4]);
    assert_eq!(Connection::header(u32::MAX as usize), vec![255, 255, 255, 255]);
    for n in [0, 255, 256, 70_000, 0x1234_5678] {
        assert_eq!(Connection::header(n), (n as u32).to_le_bytes().to_vec());
    }
}

#[test]
fn length_keeps_its_lowest_bits() {
    assert_eq!(Connection::header(0x1_0000_0005), vec![5, 0, 0, 0]);
}

#[test]
fn messages_are_received_as_sent() {
    let payloads: [&[u8]; 4] = [b"\"Ack\"", b"", b"{\"x\":1}", &[0; 300]];
    let (messages, end) = receive(&send(&payloads));
    assert_eq!(messages, payloads.iter().map(|p| p.to_vec()).collect::<Vec<_>>());
    assert_eq!(end, EndOfStream::Closed);
}

#[test]
fn length_is_awaited_first() {
    let mut connection = Connection::new();
    assert_eq!(connection, Connection::Length);
    assert_eq!(connection.wanted(), 4);
    assert_eq!(connection.on_bytes(vec![2, 1, 0, 0]), None);
    assert_eq!(connection, Connection::Payload(258));
    assert_eq!(connection.wanted(), 258);
    assert_eq!(connection.on_bytes(vec![7; 258]), Some(vec![7; 258]));
    assert_eq!(connection, Connection::Length);
}

#[test]
fn end_within_a_message_cuts_it_off() {
    let stream = send(&[b"abc", b"defg"]);
    assert_eq!(receive(&stream[..stream.len() - 1]), (vec![b"abc".to_vec()], EndOfStream::Truncated));
    assert_eq!(receive(&stream[..9]), (vec![b"abc".to_vec()], EndOfStream::Closed));
    assert_eq!(receive(&[]), (vec![], EndOfStream::Closed));
}

#[test]
fn ack_is_expected() {
    let timer = TimerState { deadline: None, short_breaks: 0, mode: TimerMode::Focus };
    let other = DaemonMessage::StateChange(timer);
    assert_eq!(Connection::expect_ack(Some(DaemonMessage::Ack)), Ok(()));
    assert_eq!(Connection::expect_ack(Some(other)), Err(AckError::Unexpected(other)));
    assert_eq!(Connection::expect_ack(None), Err(AckError::NoReply));
}
