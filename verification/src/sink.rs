//! The write side of the transport: messages that the protocol engine gives
//! out become numbered envelopes for the outbound queue.
//!
//! The adapter is generic in how the engine's messages are serialized: a
//! caller hands it what serializing the message gave.

use async_channel::Sender;
use vstd::prelude::*;

use crate::envelope::{spec_encode, Envelope, MessageDestination, ProtocolMessage};
use crate::stream::Polled;

verus! {

/// What a queue that did not take an envelope says: that it was full, or
/// that it was closed.
pub open spec fn is_refusal(reason: Seq<char>) -> bool {
    reason == "sending into a full channel"@ || reason == "sending into a closed channel"@
}

/// `Sender` of async_channel: the sending side of a queue. Nothing is
/// known of what is inside, nor of what the queue holds.
#[verifier::external_type_specification]
#[verifier::external_body]
#[verifier::reject_recursive_types(T)]
pub struct ExSender<T>(async_channel::Sender<T>);

/// `Sender::try_send` of async_channel: puts the envelope on the queue
/// without waiting. The queue takes it unless it is full or closed; which of
/// the three happens depends on the queue at that moment, so the contract
/// only says what an error reads, which is the text that async_channel gives
/// its `TrySendError`.
#[verifier::external_body]
fn try_send(sender: &Sender<ProtocolMessage>, envelope: ProtocolMessage) -> (r: Result<(), String>)
    ensures
        r matches Err(reason) ==> is_refusal(reason@),
{
    match sender.try_send(envelope) {
        Ok(()) => Ok(()),
        Err(e) => Err(e.to_string()),
    }
}

/// Why a message was not sent.
#[derive(Debug)]
pub enum SinkError<E> {
    /// The message could not be serialized; the cause is what serializing
    /// it reported. No envelope was made.
    InvalidData(E),
    /// The outbound queue did not take the envelope, because it was full or
    /// closed; the text says which.
    Transport(String),
}

/// The write side of one party in one session.
#[derive(Debug)]
pub struct ChannelSink {
    sender: Sender<ProtocolMessage>,
    session_id: String,
    party_index: u16,
    seq: u64,
}

/// A sink as a mathematical record.
pub struct SinkState {
    pub session_id: Seq<char>,
    pub party_index: u16,
    /// Number of messages handed to the sink so far.
    pub seq: u64,
}

impl View for ChannelSink {
    type V = SinkState;

    closed spec fn view(&self) -> SinkState {
        SinkState { session_id: self.session_id@, party_index: self.party_index, seq: self.seq }
    }
}

impl SinkState {
    /// The sink after one more message was handed to it.
    pub open spec fn advance(self) -> SinkState {
        SinkState { seq: (self.seq + 1) as u64, ..self }
    }

    /// The envelope that this sink makes of the next message.
    pub open spec fn envelope(self, destination: MessageDestination, payload: Seq<u8>) -> Envelope {
        spec_encode(
            self.session_id,
            self.party_index,
            destination,
            payload,
            (self.seq + 1) as u64,
        )
    }

    /// The envelopes that this sink makes of a run of messages, each given
    /// by its destination and its payload, in the order of the run.
    pub open spec fn envelopes(self, messages: Seq<(MessageDestination, Seq<u8>)>) -> Seq<Envelope>
        decreases messages.len(),
    {
        if messages.len() == 0 {
            Seq::empty()
        } else {
            seq![self.envelope(messages[0].0, messages[0].1)] + self.advance().envelopes(
                messages.drop_first(),
            )
        }
    }
}

impl ChannelSink {
    /// The sending side of the outbound queue, on which the sink puts its
    /// envelopes.
    pub closed spec fn sender(&self) -> Sender<ProtocolMessage> {
        self.sender
    }

    /// The sink of a party in a session, before its first message. Its
    /// envelopes go to the queue behind `sender`.
    pub fn new(sender: Sender<ProtocolMessage>, session_id: &str, party_index: u16) -> (sink: Self)
        ensures
            sink@ == (SinkState { session_id: session_id@, party_index, seq: 0 }),
            sink.sender() == sender,
    {
        ChannelSink { sender, session_id: String::from_str(session_id), party_index, seq: 0 }
    }

    /// Number of messages handed to the sink so far.
    pub fn seq(&self) -> (seq: u64)
        ensures
            seq == self@.seq,
    {
        self.seq
    }

    /// Whether the sink can number one more message.
    pub fn can_send(&self) -> (b: bool)
        ensures
            b == (self@.seq < u64::MAX),
    {
        self.seq < u64::MAX
    }

    /// The sink takes a message at any time.
    pub fn poll_ready<E>(&self) -> (r: Polled<Result<(), SinkError<E>>>)
        ensures
            r == Polled::<Result<(), SinkError<E>>>::Ready(Ok(())),
    {
        Polled::Ready(Ok(()))
    }

    /// Takes the next message of the protocol engine, given what
    /// serializing it gave, and puts its envelope on the outbound queue
    /// without waiting. A message that was not serialized is not sent; one
    /// that was is sent unless the queue is full or closed, which fails the
    /// send. Either way the message counts as handed over: its number is
    /// not given to another message.
    pub fn start_send<E>(
        &mut self,
        destination: MessageDestination,
        serialized: Result<Vec<u8>, E>,
    ) -> (r: Result<(), SinkError<E>>)
        requires
            old(self)@.seq < u64::MAX,
        ensures
            final(self)@ == old(self)@.advance(),
            final(self).sender() == old(self).sender(),
            match serialized {
                Ok(_) => r matches Err(error) ==> error matches SinkError::Transport(reason)
                    && is_refusal(reason@),
                Err(cause) => r == Err::<(), SinkError<E>>(SinkError::InvalidData(cause)),
            },
    {
        match self.next_envelope(destination, serialized) {
            Ok(envelope) => Self::published(try_send(&self.sender, envelope)),
            Err(error) => Err(error),
        }
    }

    /// Numbers the next message of the protocol engine and, given what
    /// serializing it gave, makes the envelope that is to go on the
    /// outbound queue. A message that was not serialized gets no envelope,
    /// but uses up its number.
    pub fn next_envelope<E>(
        &mut self,
        destination: MessageDestination,
        serialized: Result<Vec<u8>, E>,
    ) -> (r: Result<ProtocolMessage, SinkError<E>>)
        requires
            old(self)@.seq < u64::MAX,
        ensures
            final(self)@ == old(self)@.advance(),
            final(self).sender() == old(self).sender(),
            match (serialized, r) {
                (Ok(payload), Ok(envelope)) => envelope@ == old(self)@.envelope(
                    destination,
                    payload@,
                ),
                (Err(cause), Err(error)) => error == SinkError::InvalidData(cause),
                _ => false,
            },
    {
        self.seq += 1;
        let seq = self.seq;
        match serialized {
            Ok(payload) => Ok(
                ProtocolMessage::encode(
                    self.session_id.as_str(),
                    self.party_index,
                    destination,
                    payload,
                    seq,
                ),
            ),
            Err(cause) => Err(SinkError::InvalidData(cause)),
        }
    }

    /// Says what a send comes to, given what the outbound queue answered
    /// when the envelope was put on it: a queue that did not take the
    /// envelope fails the send at once.
    pub fn published<E>(attempt: Result<(), String>) -> (r: Result<(), SinkError<E>>)
        ensures
            r == match attempt {
                Ok(()) => Ok::<(), SinkError<E>>(()),
                Err(reason) => Err(SinkError::Transport(reason)),
            },
    {
        match attempt {
            Ok(()) => Ok(()),
            Err(reason) => Err(SinkError::Transport(reason)),
        }
    }

    /// The sink holds nothing back, so there is nothing to flush.
    pub fn poll_flush<E>(&self) -> (r: Polled<Result<(), SinkError<E>>>)
        ensures
            r == Polled::<Result<(), SinkError<E>>>::Ready(Ok(())),
    {
        Polled::Ready(Ok(()))
    }

    /// The sink holds nothing back, so closing it does nothing.
    pub fn poll_close<E>(&self) -> (r: Polled<Result<(), SinkError<E>>>)
        ensures
            r == Polled::<Result<(), SinkError<E>>>::Ready(Ok(())),
    {
        Polled::Ready(Ok(()))
    }
}

/// The envelopes that a sink makes of a run of messages are numbered in the
/// order of the run, each one more than the one before: the `i`-th of them
/// (counted from 0) has the number `seq + i + 1`, where `seq` messages were
/// handed to the sink before the run. Each carries its own destination and
/// payload, and the session and sender of the sink.
pub proof fn lemma_sequence_numbers(sink: SinkState, messages: Seq<(MessageDestination, Seq<u8>)>)
    requires
        sink.seq + messages.len() <= u64::MAX,
    ensures
        sink.envelopes(messages).len() == messages.len(),
        forall|i: int|
            0 <= i < messages.len() ==> (#[trigger] sink.envelopes(messages)[i]) == spec_encode(
                sink.session_id,
                sink.party_index,
                messages[i].0,
                messages[i].1,
                (sink.seq + i + 1) as u64,
            ),
    decreases messages.len(),
{
    if messages.len() > 0 {
        let rest = messages.drop_first();
        lemma_sequence_numbers(sink.advance(), rest);
        assert forall|i: int| 0 <= i < messages.len() implies (#[trigger] sink.envelopes(
            messages,
        )[i]) == spec_encode(
            sink.session_id,
            sink.party_index,
            messages[i].0,
            messages[i].1,
            (sink.seq + i + 1) as u64,
        ) by {
            if i > 0 {
                assert(sink.envelopes(messages)[i] == sink.advance().envelopes(rest)[i - 1]);
                assert(rest[i - 1] == messages[i]);
            }
        }
    }
}

/// A sink that starts a session numbers the envelopes of `n` messages
/// exactly 1, 2, ..., `n`, in the order in which the messages were handed
/// to it.
pub proof fn lemma_sequence_from_one(
    session_id: Seq<char>,
    party_index: u16,
    messages: Seq<(MessageDestination, Seq<u8>)>,
)
    requires
        messages.len() <= u64::MAX,
    ensures
        ({
            let sink = SinkState { session_id, party_index, seq: 0 };
            &&& sink.envelopes(messages).len() == messages.len()
            &&& forall|i: int|
                0 <= i < messages.len() ==> (#[trigger] sink.envelopes(messages)[i]).seq == i + 1
        }),
{
    let sink = SinkState { session_id, party_index, seq: 0 };
    lemma_sequence_numbers(sink, messages);
}

} // verus!
