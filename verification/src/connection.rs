//! How messages travel: each one as its length, in four bytes of which the least significant
//! comes first, and then its bytes.

use crate::message::DaemonMessage;
use vstd::prelude::*;

verus! {

/// The number of bytes that a length takes.
pub const LENGTH_BYTES: usize = 4;

/// One more than the largest length that can be sent.
pub const LENGTH_LIMIT: u64 = 0x1_0000_0000;

/// A number below 2^32 in four bytes, least significant first.
pub open spec fn length_bytes(n: nat) -> Seq<u8> {
    seq![
        (n % 256) as u8,
        (n / 256 % 256) as u8,
        (n / 65_536 % 256) as u8,
        (n / 16_777_216 % 256) as u8,
    ]
}

/// The number that four bytes stand for.
pub open spec fn length_value(bytes: Seq<u8>) -> nat {
    (bytes[0] + 256 * bytes[1] + 65_536 * bytes[2] + 16_777_216 * bytes[3]) as nat
}

/// What is sent before a message of the given length: the length, of which the lowest 32 bits are
/// kept.
pub open spec fn header_of(payload_len: nat) -> Seq<u8> {
    length_bytes(payload_len % LENGTH_LIMIT as nat)
}

/// What is sent for a message: its length and its bytes.
pub open spec fn frame(payload: Seq<u8>) -> Seq<u8> {
    header_of(payload.len()) + payload
}

/// What is sent for several messages.
pub open spec fn sent(payloads: Seq<Seq<u8>>) -> Seq<u8>
    decreases payloads.len(),
{
    if payloads.len() == 0 {
        Seq::empty()
    } else {
        frame(payloads[0]) + sent(payloads.drop_first())
    }
}

/// The receiving end of a connection: what it is about to read.
#[derive(Copy, Clone, Debug, PartialEq, Eq)]
pub enum Connection {
    /// The length of the next message.
    Length,
    /// A message of this length.
    Payload(u32),
}

/// What the end of the incoming bytes means.
#[derive(Copy, Clone, Debug, PartialEq, Eq, Structural)]
pub enum EndOfStream {
    /// The other end has closed the connection.
    Closed,
    /// A message has been cut off.
    Truncated,
}

/// The reply to a message is not the acknowledgement that has to come.
#[derive(Copy, Clone, Debug, PartialEq, Eq)]
pub enum AckError {
    /// No reply came.
    NoReply,
    /// Something else came.
    Unexpected(DaemonMessage),
}

impl Connection {
    /// How many bytes are to be read next.
    pub open spec fn wants(self) -> nat {
        match self {
            Connection::Length => LENGTH_BYTES as nat,
            Connection::Payload(length) => length as nat,
        }
    }

    /// What is to be read once these bytes have been.
    pub open spec fn after(self, bytes: Seq<u8>) -> Connection {
        match self {
            Connection::Length => Connection::Payload(length_value(bytes) as u32),
            Connection::Payload(_) => Connection::Length,
        }
    }

    /// The messages in a stream of incoming bytes.
    pub open spec fn received(self, stream: Seq<u8>) -> Seq<Seq<u8>>
        decreases stream.len(), (if self is Payload { 1int } else { 0int }),
    {
        if stream.len() < self.wants() {
            Seq::empty()
        } else {
            let bytes = stream.take(self.wants() as int);
            let rest = self.after(bytes).received(stream.skip(self.wants() as int));
            if self is Payload {
                seq![bytes] + rest
            } else {
                rest
            }
        }
    }

    /// A connection over which nothing has come yet.
    pub fn new() -> (connection: Self)
        ensures
            connection == Connection::Length,
    {
        Connection::Length
    }

    /// What is sent before a message of the given length.
    pub fn header(payload_len: usize) -> (header: Vec<u8>)
        ensures
            header@ == header_of(payload_len as nat),
    {
        let length: u64 = payload_len as u64 % LENGTH_LIMIT;
        let mut header: Vec<u8> = Vec::new();
        header.push((length % 256) as u8);
        header.push((length / 256 % 256) as u8);
        header.push((length / 65_536 % 256) as u8);
        header.push((length / 16_777_216 % 256) as u8);
        assert(header@ =~= header_of(payload_len as nat));
        header
    }

    /// How many bytes to read next.
    pub fn wanted(&self) -> (wanted: usize)
        ensures
            wanted == self.wants(),
    {
        match self {
            Connection::Length => LENGTH_BYTES,
            Connection::Payload(length) => *length as usize,
        }
    }

    /// Takes the bytes that were wanted, and gives the message if they are one.
    pub fn on_bytes(&mut self, bytes: Vec<u8>) -> (payload: Option<Vec<u8>>)
        requires
            bytes.len() == old(self).wants(),
        ensures
            *final(self) == old(self).after(bytes@),
            payload is Some <==> *old(self) is Payload,
            payload matches Some(payload) ==> payload@ == bytes@,
    {
        match self {
            Connection::Length => {
                let length: u32 = bytes[0] as u32 + 256 * bytes[1] as u32 + 65_536 * bytes[2] as u32
                    + 16_777_216 * bytes[3] as u32;
                *self = Connection::Payload(length);
                None
            },
            Connection::Payload(_) => {
                *self = Connection::Length;
                Some(bytes)
            },
        }
    }

    /// What it means that the wanted bytes do not come.
    pub fn on_end(&self) -> (end: EndOfStream)
        ensures
            end == (match self {
                Connection::Length => EndOfStream::Closed,
                Connection::Payload(_) => EndOfStream::Truncated,
            }),
    {
        match self {
            Connection::Length => EndOfStream::Closed,
            Connection::Payload(_) => EndOfStream::Truncated,
        }
    }

    /// Whether the reply to a message is its acknowledgement.
    pub fn expect_ack(reply: Option<DaemonMessage>) -> (result: Result<(), AckError>)
        ensures
            result == (match reply {
                None => Err::<(), AckError>(AckError::NoReply),
                Some(DaemonMessage::Ack) => Ok(()),
                Some(message) => Err(AckError::Unexpected(message)),
            }),
    {
        match reply {
            None => Err(AckError::NoReply),
            Some(DaemonMessage::Ack) => Ok(()),
            Some(message) => Err(AckError::Unexpected(message)),
        }
    }
}

/// A length below the limit reads back from its four bytes.
pub proof fn law_length_reads_back(n: nat)
    requires
        n < LENGTH_LIMIT,
    ensures
        length_bytes(n).len() == LENGTH_BYTES,
        length_value(length_bytes(n)) == n,
{
}

/// The other end receives the messages that were sent, in order and unchanged, as long as each is
/// short enough for its length to be sent.
pub proof fn law_received_as_sent(payloads: Seq<Seq<u8>>)
    requires
        forall|i: int| 0 <= i < payloads.len() ==> (#[trigger] payloads[i]).len() < LENGTH_LIMIT,
    ensures
        Connection::Length.received(sent(payloads)) == payloads,
    decreases payloads.len(),
{
    law_received_before(payloads, Seq::empty());
    assert(sent(payloads) + Seq::<u8>::empty() =~= sent(payloads));
    assert(payloads + Connection::Length.received(Seq::empty()) =~= payloads);
}

/// What comes after whole messages does not change them, and is read as if it came alone.
pub proof fn law_received_before(payloads: Seq<Seq<u8>>, more: Seq<u8>)
    requires
        forall|i: int| 0 <= i < payloads.len() ==> (#[trigger] payloads[i]).len() < LENGTH_LIMIT,
    ensures
        Connection::Length.received(sent(payloads) + more) == payloads
            + Connection::Length.received(more),
    decreases payloads.len(),
{
    if payloads.len() == 0 {
        assert(sent(payloads) + more =~= more);
        assert(payloads + Connection::Length.received(more) =~= Connection::Length.received(more));
    } else {
        let first = payloads[0];
        let others = payloads.drop_first();
        let stream = sent(payloads) + more;
        let body = stream.skip(LENGTH_BYTES as int);
        let header = length_bytes(first.len());
        assert(stream.take(LENGTH_BYTES as int) =~= header);
        law_length_reads_back(first.len());
        let reading = Connection::Payload(first.len() as u32);
        assert(Connection::Length.received(stream) == reading.received(body));
        assert(body.take(first.len() as int) =~= first);
        assert(body.skip(first.len() as int) =~= sent(others) + more);
        law_received_before(others, more);
        assert(reading.received(body) == seq![first] + Connection::Length.received(
            sent(others) + more,
        ));
        assert(seq![first] + (others + Connection::Length.received(more)) =~= payloads
            + Connection::Length.received(more));
    }
}

/// What is sent before a message is four bytes; each counts 256 times as much as the one before
/// it, and together they are the length of the message, less a multiple of 2^32 if it is longer
/// than that.
pub proof fn law_header_is_the_length(payload_len: nat)
    ensures
        ({
            let header = header_of(payload_len);
            let value = header[0] + 256 * (header[1] + 256 * (header[2] + 256 * header[3]));
            &&& header.len() == 4
            &&& (payload_len - value) % 4_294_967_296 == 0
            &&& payload_len < 4_294_967_296 ==> value == payload_len
        }),
{
}

/// Four bytes are read for a length, each of which counts 256 times as much as the one before it;
/// then as many bytes as that says; and then a length again.
pub proof fn law_length_and_message_in_turn(header: Seq<u8>, payload: Seq<u8>)
    requires
        header.len() == 4,
    ensures
        Connection::Length.wants() == 4,
        ({
            let reading = Connection::Length.after(header);
            &&& reading.wants() == header[0] + 256 * (header[1] + 256 * (header[2] + 256
                * header[3]))
            &&& reading is Payload
            &&& reading.after(payload) == Connection::Length
        }),
{
}

} // verus!
