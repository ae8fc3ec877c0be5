//! The read side of the transport: envelopes that arrive for a party become
//! the addressed messages that the protocol engine takes in.
//!
//! The adapter is generic in the engine's message type. It does not parse a
//! payload itself: a caller hands it what parsing the payload gave.

use vstd::prelude::*;

use crate::envelope::{
    spec_encode, spec_message_type, Envelope, MessageDestination, MessageType, ProtocolMessage,
};

verus! {

/// A message as the protocol engine takes it in.
#[derive(Debug)]
pub struct Incoming<M> {
    /// Identifier of the message: the sequence number of its envelope.
    pub id: u64,
    /// Index of the party that sent the message.
    pub sender: u16,
    /// Whether the message was broadcast or sent to the receiver alone.
    pub msg_type: MessageType,
    /// The message.
    pub msg: M,
}

/// Why the sequence of incoming messages ended in an error. The error is
/// the last item of the sequence.
#[derive(Debug)]
pub enum StreamError<E> {
    /// The payload of an envelope was no message of the protocol; the
    /// cause is what parsing it reported.
    InvalidData(E),
}

/// What a poll of the inbound queue found.
#[derive(Debug)]
pub enum Arrival<M, E> {
    /// An envelope, with what parsing its payload gave.
    Envelope(ProtocolMessage, Result<M, E>),
    /// The queue is closed and holds nothing more.
    Closed,
    /// The queue is open and empty.
    Empty,
}

/// Answer to a poll: a value, or none for now.
#[derive(Debug)]
pub enum Polled<T> {
    /// The value is there.
    Ready(T),
    /// Nothing yet; the poll is to be made again when the queue changes.
    Pending,
}

/// The message that an envelope delivers, given what parsing its payload
/// gave. The identifier is the envelope's sequence number, and whether the
/// message is a broadcast is read off the recipient field alone. A payload
/// that did not parse is an error that carries the cause.
pub open spec fn spec_incoming<M, E>(envelope: Envelope, parsed: Result<M, E>) -> Result<
    Incoming<M>,
    StreamError<E>,
> {
    match parsed {
        Ok(msg) => Ok(
            Incoming {
                id: envelope.seq,
                sender: envelope.sender,
                msg_type: spec_message_type(envelope.recipient),
                msg,
            },
        ),
        Err(cause) => Err(StreamError::InvalidData(cause)),
    }
}

/// The next item of the sequence of incoming messages, given what a poll of
/// the inbound queue found: the message of an envelope or the error of its
/// payload, the end of the sequence where the queue is closed, nothing yet
/// where it is empty.
pub open spec fn spec_poll_next<M, E>(arrival: Arrival<M, E>) -> Polled<
    Option<Result<Incoming<M>, StreamError<E>>>,
> {
    match arrival {
        Arrival::Envelope(envelope, parsed) => Polled::Ready(
            Some(spec_incoming(envelope@, parsed)),
        ),
        Arrival::Closed => Polled::Ready(None),
        Arrival::Empty => Polled::Pending,
    }
}

/// Turns an envelope into the message it delivers.
pub fn incoming<M, E>(envelope: &ProtocolMessage, parsed: Result<M, E>) -> (r: Result<
    Incoming<M>,
    StreamError<E>,
>)
    ensures
        r == spec_incoming(envelope@, parsed),
{
    match parsed {
        Ok(msg) => Ok(
            Incoming {
                id: envelope.seq,
                sender: envelope.sender,
                msg_type: envelope.message_type(),
                msg,
            },
        ),
        Err(cause) => Err(StreamError::InvalidData(cause)),
    }
}

/// The read side of one party in one session: whether the sequence of its
/// incoming messages has ended in an error. A payload that was no message
/// of the protocol ends the sequence: the error is its last item.
#[derive(Debug)]
pub struct ChannelStream {
    failed: bool,
}

/// The item that a stream gives for what a poll found: the end of the
/// sequence where the stream has ended in an error before, and else what
/// the arrival comes to.
pub open spec fn spec_next<M, E>(terminated: bool, arrival: Arrival<M, E>) -> Polled<
    Option<Result<Incoming<M>, StreamError<E>>>,
> {
    if terminated {
        Polled::Ready(None)
    } else {
        spec_poll_next(arrival)
    }
}

/// Whether a stream has ended in an error after it gave the item for what
/// a poll found: it had before, or the item is an error.
pub open spec fn spec_terminated_after<M, E>(terminated: bool, arrival: Arrival<M, E>) -> bool {
    terminated || spec_next(terminated, arrival) matches Polled::Ready(Some(Err(_)))
}

/// The items that a stream gives for a run of polls, in the order of the
/// run.
pub open spec fn spec_items<M, E>(terminated: bool, arrivals: Seq<Arrival<M, E>>) -> Seq<
    Polled<Option<Result<Incoming<M>, StreamError<E>>>>,
>
    decreases arrivals.len(),
{
    if arrivals.len() == 0 {
        Seq::empty()
    } else {
        seq![spec_next(terminated, arrivals[0])] + spec_items(
            spec_terminated_after(terminated, arrivals[0]),
            arrivals.drop_first(),
        )
    }
}

impl ChannelStream {
    /// Whether the sequence has ended in an error.
    pub closed spec fn terminated(&self) -> bool {
        self.failed
    }

    /// The read side before its first poll.
    pub fn new() -> (stream: Self)
        ensures
            !stream.terminated(),
    {
        ChannelStream { failed: false }
    }

    /// Whether the sequence has ended in an error. Once it has, the inbound
    /// queue need not be polled: the stream gives nothing more.
    pub fn is_terminated(&self) -> (b: bool)
        ensures
            b == self.terminated(),
    {
        self.failed
    }

    /// Gives the next item of the sequence of incoming messages, for what
    /// a poll of the inbound queue found. An error is the last item: after
    /// it the sequence is at its end, whatever arrives.
    pub fn poll_next<M, E>(&mut self, arrival: Arrival<M, E>) -> (r: Polled<
        Option<Result<Incoming<M>, StreamError<E>>>,
    >)
        ensures
            r == spec_next(old(self).terminated(), arrival),
            final(self).terminated() == spec_terminated_after(old(self).terminated(), arrival),
    {
        if self.failed {
            return Polled::Ready(None);
        }
        match arrival {
            Arrival::Envelope(envelope, parsed) => {
                let item = incoming(&envelope, parsed);
                if item.is_err() {
                    self.failed = true;
                }
                Polled::Ready(Some(item))
            },
            Arrival::Closed => Polled::Ready(None),
            Arrival::Empty => Polled::Pending,
        }
    }
}

/// An error ends the sequence of incoming messages: in a run of polls,
/// every item after an error is the end of the sequence, so that no message
/// is delivered after a payload that was no message of the protocol.
pub proof fn lemma_error_ends_the_sequence<M, E>(
    terminated: bool,
    arrivals: Seq<Arrival<M, E>>,
    i: int,
    j: int,
)
    requires
        0 <= i < j < arrivals.len(),
        spec_items(terminated, arrivals)[i] matches Polled::Ready(Some(Err(_))),
    ensures
        spec_items(terminated, arrivals).len() == arrivals.len(),
        spec_items(terminated, arrivals)[j] == Polled::<
            Option<Result<Incoming<M>, StreamError<E>>>,
        >::Ready(None),
    decreases arrivals.len(),
{
    let rest = arrivals.drop_first();
    let next = spec_terminated_after(terminated, arrivals[0]);
    lemma_items_len(terminated, arrivals);
    lemma_items_len(next, rest);
    assert(spec_items(terminated, arrivals)[j] == spec_items(next, rest)[j - 1]);
    if i == 0 {
        lemma_ended_stays_ended(next, rest, j - 1);
    } else {
        assert(spec_items(terminated, arrivals)[i] == spec_items(next, rest)[i - 1]);
        lemma_error_ends_the_sequence(next, rest, i - 1, j - 1);
    }
}

/// A run of polls gives one item for each poll.
pub proof fn lemma_items_len<M, E>(terminated: bool, arrivals: Seq<Arrival<M, E>>)
    ensures
        spec_items(terminated, arrivals).len() == arrivals.len(),
    decreases arrivals.len(),
{
    if arrivals.len() > 0 {
        lemma_items_len(spec_terminated_after(terminated, arrivals[0]), arrivals.drop_first());
    }
}

/// A stream that has ended in an error gives the end of the sequence for
/// every poll.
pub proof fn lemma_ended_stays_ended<M, E>(terminated: bool, arrivals: Seq<Arrival<M, E>>, j: int)
    requires
        terminated,
        0 <= j < arrivals.len(),
    ensures
        spec_items(terminated, arrivals)[j] == Polled::<
            Option<Result<Incoming<M>, StreamError<E>>>,
        >::Ready(None),
    decreases arrivals.len(),
{
    let rest = arrivals.drop_first();
    lemma_items_len(terminated, rest);
    if j > 0 {
        assert(spec_items(terminated, arrivals)[j] == spec_items(terminated, rest)[j - 1]);
        lemma_ended_stays_ended(terminated, rest, j - 1);
    }
}

/// What a sender puts into an envelope, the receiver gets out of it: the
/// message comes with the sender's index, with the envelope's sequence
/// number as its identifier, and as a broadcast exactly where it was sent
/// to all parties.
pub proof fn lemma_delivery_round_trip<M, E>(
    session_id: Seq<char>,
    sender: u16,
    destination: MessageDestination,
    payload: Seq<u8>,
    seq: u64,
    msg: M,
)
    ensures
        spec_incoming::<M, E>(spec_encode(session_id, sender, destination, payload, seq), Ok(msg))
            == Ok::<Incoming<M>, StreamError<E>>(
            Incoming {
                id: seq,
                sender,
                msg_type: match destination {
                    MessageDestination::AllParties => MessageType::Broadcast,
                    MessageDestination::OneParty(_) => MessageType::P2P,
                },
                msg,
            },
        ),
{
}

} // verus!
