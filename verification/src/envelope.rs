//! The envelope that carries one protocol message between parties, and how
//! a message is addressed: to all parties or to one.

use vstd::prelude::*;

verus! {

/// Where a party sends a message.
#[derive(Debug, Clone, Copy, PartialEq, Eq, Structural)]
pub enum MessageDestination {
    /// To every party of the run.
    AllParties,
    /// To the party with the given index.
    OneParty(u16),
}

/// How a received message was addressed.
#[derive(Debug, Clone, Copy, PartialEq, Eq, Structural)]
pub enum MessageType {
    /// It was sent to every party.
    Broadcast,
    /// It was sent to the receiver alone.
    P2P,
}

/// The recipient field of an envelope sent to `destination`: absent for a
/// broadcast, the addressed party otherwise.
pub open spec fn spec_recipient(destination: MessageDestination) -> Option<u16> {
    match destination {
        MessageDestination::AllParties => None,
        MessageDestination::OneParty(party) => Some(party),
    }
}

/// The destination that a recipient field stands for.
pub open spec fn spec_destination(recipient: Option<u16>) -> MessageDestination {
    match recipient {
        None => MessageDestination::AllParties,
        Some(party) => MessageDestination::OneParty(party),
    }
}

/// How an envelope with the given recipient field was addressed. Nothing
/// but the presence of the recipient decides.
pub open spec fn spec_message_type(recipient: Option<u16>) -> MessageType {
    match recipient {
        None => MessageType::Broadcast,
        Some(_) => MessageType::P2P,
    }
}

impl MessageDestination {
    /// The recipient field of an envelope sent here.
    pub fn recipient(&self) -> (recipient: Option<u16>)
        ensures
            recipient == spec_recipient(*self),
    {
        match self {
            MessageDestination::AllParties => None,
            MessageDestination::OneParty(party) => Some(*party),
        }
    }
}

/// Wire record that addresses one protocol message to a session, a sender
/// and, for a direct message, a recipient.
#[derive(Debug, Clone)]
pub struct ProtocolMessage {
    /// Identifier of the protocol run; the same for all parties of a run.
    pub session_id: String,
    /// Index of the party that sent the message.
    pub sender: u16,
    /// Index of the party addressed; `None` for a broadcast.
    pub recipient: Option<u16>,
    /// Round number; senders leave it at 0.
    pub round: u16,
    /// The serialized protocol message.
    pub payload: Vec<u8>,
    /// Number of this envelope among those of its sender, counted from 1.
    pub seq: u64,
}

/// An envelope as a mathematical record.
pub struct Envelope {
    pub session_id: Seq<char>,
    pub sender: u16,
    pub recipient: Option<u16>,
    pub round: u16,
    pub payload: Seq<u8>,
    pub seq: u64,
}

impl View for ProtocolMessage {
    type V = Envelope;

    open spec fn view(&self) -> Envelope {
        Envelope {
            session_id: self.session_id@,
            sender: self.sender,
            recipient: self.recipient,
            round: self.round,
            payload: self.payload@,
            seq: self.seq,
        }
    }
}

/// The envelope that carries `payload` from `sender` to `destination` as
/// the `seq`-th envelope of its sender in the session. The round is 0.
pub open spec fn spec_encode(
    session_id: Seq<char>,
    sender: u16,
    destination: MessageDestination,
    payload: Seq<u8>,
    seq: u64,
) -> Envelope {
    Envelope {
        session_id,
        sender,
        recipient: spec_recipient(destination),
        round: 0,
        payload,
        seq,
    }
}

impl ProtocolMessage {
    /// Puts a serialized protocol message into its envelope.
    pub fn encode(
        session_id: &str,
        sender: u16,
        destination: MessageDestination,
        payload: Vec<u8>,
        seq: u64,
    ) -> (envelope: ProtocolMessage)
        ensures
            envelope@ == spec_encode(session_id@, sender, destination, payload@, seq),
    {
        ProtocolMessage {
            session_id: String::from_str(session_id),
            sender,
            recipient: destination.recipient(),
            round: 0,
            payload,
            seq,
        }
    }

    /// Where the envelope was sent.
    pub fn destination(&self) -> (destination: MessageDestination)
        ensures
            destination == spec_destination(self@.recipient),
    {
        match self.recipient {
            None => MessageDestination::AllParties,
            Some(party) => MessageDestination::OneParty(party),
        }
    }

    /// How the envelope was addressed.
    pub fn message_type(&self) -> (msg_type: MessageType)
        ensures
            msg_type == spec_message_type(self@.recipient),
    {
        if self.recipient.is_some() {
            MessageType::P2P
        } else {
            MessageType::Broadcast
        }
    }
}

/// An envelope gives back what was put into it: session, sender,
/// destination, payload and sequence number, each as it was.
pub proof fn lemma_envelope_round_trip(
    session_id: Seq<char>,
    sender: u16,
    destination: MessageDestination,
    payload: Seq<u8>,
    seq: u64,
)
    ensures
        ({
            let envelope = spec_encode(session_id, sender, destination, payload, seq);
            &&& envelope.session_id == session_id
            &&& envelope.sender == sender
            &&& spec_destination(envelope.recipient) == destination
            &&& envelope.payload == payload
            &&& envelope.seq == seq
        }),
{
}

/// A broadcast is sent without a recipient and received as a broadcast; a
/// message to one party is sent with that party as its recipient and
/// received as a direct message addressed to that party.
pub proof fn lemma_addressing_round_trip(destination: MessageDestination)
    ensures
        match destination {
            MessageDestination::AllParties => {
                &&& spec_recipient(destination).is_none()
                &&& spec_message_type(spec_recipient(destination)) == MessageType::Broadcast
            },
            MessageDestination::OneParty(party) => {
                &&& spec_recipient(destination) == Some(party)
                &&& spec_message_type(spec_recipient(destination)) == MessageType::P2P
            },
        },
        spec_destination(spec_recipient(destination)) == destination,
{
}

} // verus!
