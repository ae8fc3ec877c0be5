use frost_session::envelope::{MessageDestination, MessageType, ProtocolMessage};
use frost_session::sink::{ChannelSink, SinkError};
use frost_session::stream::{incoming, Arrival, ChannelStream, Incoming, Polled, StreamError};

#[test]
fn test_protocol_message_serialization() {
    let msg = ProtocolMessage {
        session_id: "test-session".to_string(),
        sender: 0,
        recipient: None,
        round: 1,
        payload: vec![1, 2, 3],
        seq: 1,
    };

    let mut record = serde_json::Map::new();
    record.insert("session_id".to_string(), serde_json::Value::from(msg.session_id.clone()));
    record.insert("sender".to_string(), serde_json::Value::from(msg.sender));
    record.insert("recipient".to_string(), serde_json::Value::from(msg.recipient));
    record.insert("round".to_string(), serde_json::Value::from(msg.round));
    record.insert("payload".to_string(), serde_json::Value::from(msg.payload.clone()));
    record.insert("seq".to_string(), serde_json::Value::from(msg.seq));

    let serialized = serde_json::to_string(&serde_json::Value::Object(record)).unwrap();
    let parsed: serde_json::Value = serde_json::from_str(&serialized).unwrap();
    let deserialized = ProtocolMessage {
        session_id: parsed["session_id"].as_str().unwrap().to_string(),
        sender: parsed["sender"].as_u64().unwrap() as u16,
        recipient: parsed["recipient"].as_u64().map(|p| p as u16),
        round: parsed["round"].as_u64().unwrap() as u16,
        payload: parsed["payload"]
            .as_array()
            .unwrap()
            .iter()
            .map(|b| b.as_u64().unwrap() as u8)
            .collect(),
        seq: parsed["seq"].as_u64().unwrap(),
    };

    assert_eq!(msg.session_id, deserialized.session_id);
    assert_eq!(msg.sender, deserialized.sender);
    assert_eq!(msg.recipient, deserialized.recipient);
    assert_eq!(msg.round, deserialized.round);
    assert_eq!(msg.payload, deserialized.payload);
    assert_eq!(msg.seq, deserialized.seq);
}

#[test]
fn encode_keeps_every_field() {
    let envelope = ProtocolMessage::encode(
        "s1",
        4,
        MessageDestination::OneParty(9),
        vec![0xde, 0xad, 0xbe, 0xef],
        17,
    );
    assert_eq!(envelope.session_id, "s1");
    assert_eq!(envelope.sender, 4);
    assert_eq!(envelope.recipient, Some(9));
    assert_eq!(envelope.round, 0);
    assert_eq!(envelope.payload, vec![0xde, 0xad, 0xbe, 0xef]);
    assert_eq!(envelope.seq, 17);
    assert_eq!(envelope.destination(), MessageDestination::OneParty(9));
}

#[test]
fn encode_then_receive_gives_back_what_was_sent() {
    let cases = [
        ("", 0u16, MessageDestination::AllParties, Vec::new(), 1u64),
        ("session", 65535, MessageDestination::OneParty(0), vec![1u8], u64::MAX),
        ("s", 2, MessageDestination::OneParty(65535), vec![0u8; 300], 42),
    ];
    for (session_id, sender, destination, payload, seq) in cases {
        let envelope = ProtocolMessage::encode(session_id, sender, destination, payload.clone(), seq);
        assert_eq!(envelope.session_id, session_id);
        assert_eq!(envelope.destination(), destination);
        let received = incoming::<Vec<u8>, String>(&envelope, Ok(envelope.payload.clone())).unwrap();
        assert_eq!(received.id, seq);
        assert_eq!(received.sender, sender);
        assert_eq!(received.msg, payload);
        assert_eq!(
            received.msg_type,
            match destination {
                MessageDestination::AllParties => MessageType::Broadcast,
                MessageDestination::OneParty(_) => MessageType::P2P,
            }
        );
    }
}

#[test]
fn broadcast_has_no_recipient_and_is_received_as_broadcast() {
    assert_eq!(MessageDestination::AllParties.recipient(), None);
    let envelope = ProtocolMessage::encode("s1", 1, MessageDestination::AllParties, vec![1], 1);
    assert_eq!(envelope.recipient, None);
    assert_eq!(envelope.message_type(), MessageType::Broadcast);
    assert_eq!(envelope.destination(), MessageDestination::AllParties);
}

#[test]
fn direct_message_names_its_recipient_and_is_received_as_p2p() {
    assert_eq!(MessageDestination::OneParty(2).recipient(), Some(2));
    let envelope = ProtocolMessage::encode("s1", 1, MessageDestination::OneParty(2), vec![1], 1);
    assert_eq!(envelope.recipient, Some(2));
    assert_eq!(envelope.message_type(), MessageType::P2P);
    assert_eq!(envelope.destination(), MessageDestination::OneParty(2));
}

#[test]
fn message_to_party_zero_is_still_direct() {
    let envelope = ProtocolMessage::encode("s1", 0, MessageDestination::OneParty(0), vec![], 1);
    assert_eq!(envelope.recipient, Some(0));
    assert_eq!(envelope.message_type(), MessageType::P2P);
}

#[test]
fn classification_ignores_the_payload_and_the_round() {
    let envelope = ProtocolMessage {
        session_id: "s".to_string(),
        sender: 3,
        recipient: None,
        round: 7,
        payload: b"{\"recipient\":1}".to_vec(),
        seq: 5,
    };
    let received = incoming::<u8, String>(&envelope, Ok(1)).unwrap();
    assert_eq!(received.msg_type, MessageType::Broadcast);
    assert_eq!(received.id, 5);
    assert_eq!(received.sender, 3);
}

#[test]
fn malformed_payload_is_invalid_data_with_its_cause() {
    let envelope = ProtocolMessage::encode("s1", 1, MessageDestination::AllParties, vec![0xff], 3);
    let received = incoming::<u8, String>(&envelope, Err("expected value".to_string()));
    match received {
        Err(StreamError::InvalidData(cause)) => assert_eq!(cause, "expected value"),
        Ok(_) => panic!("a payload that did not parse was delivered"),
    }
}

#[test]
fn poll_next_delivers_ends_and_waits() {
    let mut stream = ChannelStream::new();
    assert!(!stream.is_terminated());
    assert!(matches!(stream.poll_next::<u32, String>(Arrival::Empty), Polled::Pending));
    let envelope = ProtocolMessage::encode("s1", 1, MessageDestination::OneParty(0), vec![9], 8);
    match stream.poll_next::<u32, String>(Arrival::Envelope(envelope, Ok(77))) {
        Polled::Ready(Some(Ok(Incoming { id, sender, msg_type, msg }))) => {
            assert_eq!((id, sender, msg_type, msg), (8, 1, MessageType::P2P, 77));
        }
        _ => panic!("an envelope was not delivered"),
    }
    assert!(matches!(stream.poll_next::<u32, String>(Arrival::Empty), Polled::Pending));
    let envelope = ProtocolMessage::encode("s1", 2, MessageDestination::AllParties, vec![9], 1);
    match stream.poll_next::<u32, String>(Arrival::Envelope(envelope, Ok(78))) {
        Polled::Ready(Some(Ok(Incoming { id, sender, msg_type, msg }))) => {
            assert_eq!((id, sender, msg_type, msg), (1, 2, MessageType::Broadcast, 78));
        }
        _ => panic!("an envelope was not delivered"),
    }
    assert!(matches!(stream.poll_next::<u32, String>(Arrival::Closed), Polled::Ready(None)));
    assert!(!stream.is_terminated());
}

#[test]
fn malformed_payload_ends_the_sequence() {
    let mut stream = ChannelStream::new();
    let good = ProtocolMessage::encode("s1", 1, MessageDestination::AllParties, vec![1], 1);
    assert!(matches!(
        stream.poll_next::<u32, String>(Arrival::Envelope(good, Ok(1))),
        Polled::Ready(Some(Ok(_)))
    ));
    assert!(!stream.is_terminated());

    let bad = ProtocolMessage::encode("s1", 1, MessageDestination::AllParties, vec![0xff], 2);
    match stream.poll_next::<u32, String>(Arrival::Envelope(bad, Err("expected value".to_string()))) {
        Polled::Ready(Some(Err(StreamError::InvalidData(cause)))) => {
            assert_eq!(cause, "expected value")
        }
        _ => panic!("a payload that did not parse was not reported"),
    }
    assert!(stream.is_terminated());

    let later = ProtocolMessage::encode("s1", 1, MessageDestination::AllParties, vec![3], 3);
    assert!(matches!(
        stream.poll_next::<u32, String>(Arrival::Envelope(later, Ok(3))),
        Polled::Ready(None)
    ));
    let worse = ProtocolMessage::encode("s1", 1, MessageDestination::AllParties, vec![4], 4);
    assert!(matches!(
        stream.poll_next::<u32, String>(Arrival::Envelope(worse, Err("again".to_string()))),
        Polled::Ready(None)
    ));
    assert!(matches!(stream.poll_next::<u32, String>(Arrival::Empty), Polled::Ready(None)));
    assert!(matches!(stream.poll_next::<u32, String>(Arrival::Closed), Polled::Ready(None)));
    assert!(stream.is_terminated());
}

#[test]
fn sink_numbers_envelopes_from_one() {
    let (sender, _receiver) = async_channel::unbounded();
    let mut sink = ChannelSink::new(sender, "s1", 2);
    assert_eq!(sink.seq(), 0);
    for n in 1..=50u64 {
        let destination = if n % 2 == 0 {
            MessageDestination::AllParties
        } else {
            MessageDestination::OneParty((n % 3) as u16)
        };
        let envelope = sink.next_envelope::<String>(destination, Ok(vec![n as u8])).unwrap();
        assert_eq!(envelope.seq, n);
        assert_eq!(envelope.sender, 2);
        assert_eq!(envelope.session_id, "s1");
        assert_eq!(envelope.round, 0);
        assert_eq!(envelope.payload, vec![n as u8]);
        assert_eq!(envelope.recipient, destination.recipient());
        assert_eq!(sink.seq(), n);
    }
}

#[test]
fn sent_envelopes_reach_the_queue_in_order_numbered_from_one() {
    let (sender, receiver) = async_channel::unbounded();
    let mut sink = ChannelSink::new(sender, "s1", 7);
    for n in 0..20u8 {
        let destination = if n % 4 == 0 {
            MessageDestination::OneParty(n as u16)
        } else {
            MessageDestination::AllParties
        };
        assert!(matches!(sink.start_send::<String>(destination, Ok(vec![n, n])), Ok(())));
    }
    assert_eq!(receiver.len(), 20);
    for n in 0..20u8 {
        let envelope: ProtocolMessage = receiver.try_recv().unwrap();
        assert_eq!(envelope.seq, n as u64 + 1);
        assert_eq!(envelope.session_id, "s1");
        assert_eq!(envelope.sender, 7);
        assert_eq!(envelope.round, 0);
        assert_eq!(envelope.payload, vec![n, n]);
        assert_eq!(envelope.recipient, if n % 4 == 0 { Some(n as u16) } else { None });
    }
    assert!(receiver.try_recv().is_err());
}

#[test]
fn sink_resolves_destinations() {
    let (sender, receiver) = async_channel::unbounded();
    let mut sink = ChannelSink::new(sender, "run", 0);
    sink.start_send::<String>(MessageDestination::AllParties, Ok(vec![])).unwrap();
    sink.start_send::<String>(MessageDestination::OneParty(5), Ok(vec![])).unwrap();
    assert_eq!(receiver.try_recv().unwrap().recipient, None);
    assert_eq!(receiver.try_recv().unwrap().recipient, Some(5));
}

#[test]
fn serialization_failure_sends_nothing_and_uses_up_its_number() {
    let (sender, receiver) = async_channel::unbounded();
    let mut sink = ChannelSink::new(sender, "s1", 1);
    sink.start_send::<String>(MessageDestination::AllParties, Ok(vec![1])).unwrap();
    match sink.start_send(MessageDestination::AllParties, Err("key must be a string".to_string())) {
        Err(SinkError::InvalidData(cause)) => assert_eq!(cause, "key must be a string"),
        _ => panic!("a message that was not serialized was sent"),
    }
    assert_eq!(sink.seq(), 2);
    sink.start_send::<String>(MessageDestination::AllParties, Ok(vec![3])).unwrap();
    assert_eq!(receiver.len(), 2);
    assert_eq!(receiver.try_recv().unwrap().seq, 1);
    assert_eq!(receiver.try_recv().unwrap().seq, 3);
}

#[test]
fn next_envelope_of_a_message_that_was_not_serialized_is_an_error() {
    let (sender, receiver) = async_channel::unbounded();
    let mut sink = ChannelSink::new(sender, "s1", 1);
    match sink.next_envelope(MessageDestination::OneParty(1), Err(5u8)) {
        Err(SinkError::InvalidData(cause)) => assert_eq!(cause, 5),
        _ => panic!("an envelope was made of nothing"),
    }
    assert_eq!(sink.seq(), 1);
    assert!(receiver.is_empty());
}

#[test]
fn full_queue_fails_the_send_at_once() {
    let (sender, receiver) = async_channel::bounded(1);
    let mut sink = ChannelSink::new(sender, "s1", 1);
    sink.start_send::<String>(MessageDestination::AllParties, Ok(vec![1])).unwrap();
    match sink.start_send::<String>(MessageDestination::AllParties, Ok(vec![2])) {
        Err(SinkError::Transport(reason)) => assert_eq!(reason, "sending into a full channel"),
        _ => panic!("a full queue took an envelope"),
    }
    assert_eq!(sink.seq(), 2);
    assert_eq!(receiver.len(), 1);
    assert_eq!(receiver.try_recv().unwrap().payload, vec![1]);
    sink.start_send::<String>(MessageDestination::AllParties, Ok(vec![3])).unwrap();
    assert_eq!(receiver.try_recv().unwrap().seq, 3);
}

#[test]
fn closed_queue_fails_the_send_at_once() {
    let (sender, receiver) = async_channel::unbounded::<ProtocolMessage>();
    let mut sink = ChannelSink::new(sender, "s1", 1);
    drop(receiver);
    match sink.start_send::<String>(MessageDestination::OneParty(0), Ok(vec![1])) {
        Err(SinkError::Transport(reason)) => assert_eq!(reason, "sending into a closed channel"),
        _ => panic!("a closed queue took an envelope"),
    }
}

#[test]
fn sink_is_always_ready_and_has_nothing_to_flush() {
    let (sender, receiver) = async_channel::bounded(1);
    let mut sink = ChannelSink::new(sender, "s1", 1);
    assert!(sink.can_send());
    assert!(matches!(sink.poll_ready::<String>(), Polled::Ready(Ok(()))));
    sink.start_send::<String>(MessageDestination::AllParties, Ok(vec![1])).unwrap();
    assert!(matches!(sink.poll_ready::<String>(), Polled::Ready(Ok(()))));
    assert!(matches!(sink.poll_flush::<String>(), Polled::Ready(Ok(()))));
    assert!(matches!(sink.poll_close::<String>(), Polled::Ready(Ok(()))));
    assert_eq!(sink.seq(), 1);
    assert!(sink.can_send());
    assert_eq!(receiver.len(), 1);
    assert!(!receiver.is_closed());
}

#[test]
fn queue_that_refuses_an_envelope_fails_the_send() {
    assert!(matches!(ChannelSink::published::<String>(Ok(())), Ok(())));
    match ChannelSink::published::<String>(Err("sending into a full channel".to_string())) {
        Err(SinkError::Transport(reason)) => assert_eq!(reason, "sending into a full channel"),
        _ => panic!("a full queue did not fail the send"),
    }
    match ChannelSink::published::<String>(Err("sending into a closed channel".to_string())) {
        Err(SinkError::Transport(reason)) => assert_eq!(reason, "sending into a closed channel"),
        _ => panic!("a closed queue did not fail the send"),
    }
}

#[test]
fn keygen_and_signing_exchange_the_same_envelope() {
    let sent: frost_session::keygen::ProtocolMessage =
        ProtocolMessage::encode("s1", 1, MessageDestination::AllParties, vec![4, 5], 2);
    let received: frost_session::signing::ProtocolMessage = sent.clone();
    assert_eq!(received.session_id, "s1");
    assert_eq!(received.sender, 1);
    assert_eq!(received.recipient, None);
    assert_eq!(received.round, 0);
    assert_eq!(received.payload, vec![4, 5]);
    assert_eq!(received.seq, 2);
}
