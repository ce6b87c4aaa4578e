use rasta_rs::message::{Message, MessageType};
use rasta_rs::sci::scip::{SCIPointLocation, SCIPointTargetLocation};
use rasta_rs::sci::{SCICommand, SCIConnection, SCIListener, SCIMessageType, SCITelegram};
use rasta_rs::sci::session::{SCIAction, SCISend};
use rasta_rs::{
    ListenerAction, RastaAction, RastaCommand, RastaConnection, RastaConnectionState, RastaError,
    RastaListener, N_SENDMAX, RASTA_TIMEOUT_MS,
};

fn reply(action: ListenerAction) -> Message {
    match action {
        ListenerAction::Reply(m) => m,
        other => panic!("no reply: {:?}", other),
    }
}

/// Opens a connection from id 42 to a listener with id 1337.
fn handshake() -> (RastaConnection, RastaListener) {
    let mut conn = RastaConnection::new(42);
    let mut listener = RastaListener::new(1337);
    let request = conn.open_connection_with_sequence_number(1337, 4, 1000).unwrap();
    let request = Message::decode(request.as_bytes()).unwrap();
    let response = reply(listener.handle_message(&request, 0, 1001).unwrap());
    let response = conn.receive_message(response.as_bytes()).unwrap();
    conn.connection_response(&response).unwrap();
    (conn, listener)
}

#[test]
fn a_new_connection_is_down() {
    let conn = RastaConnection::new(42);
    assert_eq!(conn.connection_state_request(), RastaConnectionState::Down);
    assert_eq!(conn.id(), 42);
    assert_eq!(conn.peer(), 0);
    assert_eq!(conn.sequence_number(), None);
    assert_eq!(conn.confirmed_timestamp(), 0);
}

#[test]
fn handshake_brings_the_connection_up() {
    let (conn, listener) = handshake();
    assert_eq!(conn.connection_state_request(), RastaConnectionState::Up);
    assert_eq!(conn.peer(), 1337);
    assert_eq!(conn.sequence_number(), Some(5));
    assert_eq!(conn.confirmed_timestamp(), 1001);
    assert_eq!(listener.connections(), &[42][..]);
    assert_eq!(listener.sequence_number(), Some(5));
}

#[test]
fn connection_request_asks_the_receiver_with_the_full_window() {
    let conn = RastaConnection::new(42);
    let request = conn.open_connection(1337, 1000).unwrap();
    assert_eq!(request.message_type(), MessageType::ConnReq);
    assert_eq!(request.receiver(), 1337);
    assert_eq!(request.sender(), 42);
    assert_eq!(request.timestamp(), 1000);
    assert_eq!(request.data()[5], (N_SENDMAX % 256) as u8);
    assert_eq!(request.data()[6], (N_SENDMAX / 256) as u8);
    assert_eq!(conn.connection_state_request(), RastaConnectionState::Down);
}

#[test]
fn listener_answers_a_connection_request() {
    let mut listener = RastaListener::new(1337);
    let request = Message::connection_request_with_sequence_number(1337, 42, 9, 1000, 100);
    let response = reply(listener.handle_message(&request, 0, 2000).unwrap());
    assert_eq!(response.message_type(), MessageType::ConnResp);
    assert_eq!(response.receiver(), 42);
    assert_eq!(response.sender(), 1337);
    assert_eq!(response.sequence_number(), 10);
    assert_eq!(response.confirmed_sequence_number(), 9);
    assert_eq!(response.timestamp(), 2000);
    assert_eq!(response.confirmed_timestamp(), 1000);
    assert_eq!(&response.data()[0..4], b"0301");
}

#[test]
fn version_mismatch_fails_the_handshake() {
    let mut conn = RastaConnection::new(42);
    conn.open_connection(1337, 1000).unwrap();
    let mut bytes = Message::connection_response(42, 1337, 4, 1001, 1000, N_SENDMAX).as_bytes().to_vec();
    bytes[34..38].copy_from_slice(&[0x30, 0x33, 0x30, 0x32]);
    let response = Message::decode(&bytes).unwrap();
    assert_eq!(conn.connection_response(&response), Err(RastaError::VersionMismatch));
    assert_eq!(conn.connection_state_request(), RastaConnectionState::Down);
    assert_eq!(conn.sequence_number(), None);
}

#[test]
fn an_answer_without_data_carries_no_version() {
    let mut conn = RastaConnection::new(42);
    let heartbeat = Message::heartbeat(42, 1337, 1, 0, 0, 0);
    assert_eq!(conn.connection_response(&heartbeat), Err(RastaError::VersionMismatch));
    assert!(!RastaConnection::has_version(&heartbeat));
    assert!(RastaConnection::has_version(&Message::connection_response(1, 2, 3, 4, 5, 6)));
}

#[test]
fn a_connection_request_as_answer_changes_nothing() {
    let mut conn = RastaConnection::new(42);
    let request = Message::connection_request_with_sequence_number(42, 1337, 4, 0, 0);
    assert_eq!(conn.connection_response(&request), Ok(()));
    assert_eq!(conn.connection_state_request(), RastaConnectionState::Down);
}

#[test]
fn operations_need_their_state() {
    let mut conn = RastaConnection::new(42);
    assert_eq!(conn.send_data(&[1], 0).unwrap_err(), RastaError::StateError);
    assert_eq!(conn.send_heartbeat(0).unwrap_err(), RastaError::StateError);
    assert!(conn.close_connection(0).is_none());
    assert_eq!(conn.connection_state_request(), RastaConnectionState::Down);
    let (mut conn, _) = handshake();
    assert_eq!(conn.open_connection(1, 0).unwrap_err(), RastaError::StateError);
    assert_eq!(
        conn.open_connection_with_sequence_number(1, 2, 0).unwrap_err(),
        RastaError::StateError
    );
    let response = Message::connection_response(42, 1337, 4, 0, 0, 1);
    assert_eq!(conn.connection_response(&response), Err(RastaError::StateError));
}

#[test]
fn data_sends_move_the_sequence_number_by_one_each() {
    let (mut conn, mut listener) = handshake();
    let initial = conn.sequence_number().unwrap();
    for n in 1..=10u32 {
        let message = conn.send_data(&[n as u8], 2000).unwrap();
        assert_eq!(message.message_type(), MessageType::Data);
        assert_eq!(message.receiver(), 1337);
        assert_eq!(message.sender(), 42);
        assert_eq!(message.confirmed_sequence_number(), initial + n - 1);
        assert_eq!(message.sequence_number(), initial + n);
        assert_eq!(message.confirmed_timestamp(), 1001);
        assert_eq!(conn.sequence_number(), Some(initial + n));
        let action = listener.handle_message(&message, n as u64, 2000).unwrap();
        assert!(matches!(action, ListenerAction::Deliver));
        let answer = listener.data_response(&message, None, 2001);
        assert_eq!(answer.message_type(), MessageType::HB);
        assert_eq!(answer.sequence_number(), initial + n);
    }
}

#[test]
fn sequence_numbers_wrap_around() {
    let mut conn = RastaConnection::new(42);
    conn.open_connection(1337, 0).unwrap();
    let response = Message::connection_response(42, 1337, u32::MAX - 1, 0, 0, 1);
    conn.connection_response(&response).unwrap();
    assert_eq!(conn.sequence_number(), Some(u32::MAX));
    let message = conn.send_data(&[], 0).unwrap();
    assert_eq!(message.confirmed_sequence_number(), u32::MAX);
    assert_eq!(message.sequence_number(), 0);
    assert_eq!(conn.sequence_number(), Some(0));
}

#[test]
fn heartbeat_keeps_the_connection_alive() {
    let (mut conn, mut listener) = handshake();
    let before = conn.sequence_number().unwrap();
    let heartbeat = conn.send_heartbeat(3000).unwrap();
    assert_eq!(heartbeat.message_type(), MessageType::HB);
    assert_eq!(heartbeat.length(), 36);
    // sending advances the sequence number by exactly one
    assert_eq!(conn.sequence_number(), Some(before + 1));
    assert_eq!(heartbeat.sequence_number(), before + 1);
    assert_eq!(heartbeat.confirmed_sequence_number(), before);
    let answer = reply(listener.handle_message(&heartbeat, 100, 3001).unwrap());
    assert_eq!(answer.message_type(), MessageType::HB);
    assert_eq!(answer.receiver(), 42);
    assert_eq!(answer.confirmed_sequence_number(), before + 1);
    assert_eq!(answer.sequence_number(), before + 2);
    assert_eq!(answer.confirmed_timestamp(), 3000);
    // the connection takes over what the answer says
    conn.heartbeat_response(&answer);
    assert_eq!(conn.sequence_number(), Some(answer.sequence_number()));
    assert_eq!(conn.confirmed_timestamp(), 3001);
    assert_eq!(conn.connection_state_request(), RastaConnectionState::Up);
    // and both sides agree on what comes next
    let next = conn.send_heartbeat(3002).unwrap();
    assert!(listener.handle_message(&next, 200, 3003).is_ok());
}

#[test]
fn another_answer_to_a_heartbeat_changes_nothing() {
    let (mut conn, _) = handshake();
    conn.send_heartbeat(0).unwrap();
    let before = conn.sequence_number();
    conn.heartbeat_response(&Message::data_message(42, 1337, 99, 98, 7, 6, &[1]));
    assert_eq!(conn.sequence_number(), before);
    assert_eq!(conn.confirmed_timestamp(), 1001);
}

#[test]
fn closing_sends_a_disconnection_request_once() {
    let (mut conn, mut listener) = handshake();
    let before = conn.sequence_number().unwrap();
    let request = conn.close_connection(4000).unwrap();
    assert_eq!(request.message_type(), MessageType::DiscReq);
    assert_eq!(request.length(), 40);
    assert_eq!(request.receiver(), 1337);
    assert_eq!(request.sender(), 42);
    assert_eq!(request.confirmed_sequence_number(), before);
    assert_eq!(request.sequence_number(), before + 1);
    // until the request is written the connection is still up
    assert_eq!(conn.connection_state_request(), RastaConnectionState::Up);
    conn.disconnection_written();
    assert_eq!(conn.connection_state_request(), RastaConnectionState::Closed);
    assert!(conn.close_connection(4001).is_none());
    conn.disconnection_written();
    assert_eq!(conn.connection_state_request(), RastaConnectionState::Closed);
    let action = listener.handle_message(&request, 10, 4001).unwrap();
    assert!(matches!(action, ListenerAction::Close));
    assert!(listener.connections().is_empty());
}

#[test]
fn a_closed_connection_never_comes_up_again() {
    let (mut conn, _) = handshake();
    conn.close_connection(0).unwrap();
    conn.disconnection_written();
    assert_eq!(conn.open_connection(1337, 0).unwrap_err(), RastaError::StateError);
    let response = Message::connection_response(42, 1337, 4, 0, 0, N_SENDMAX);
    assert_eq!(conn.connection_response(&response), Err(RastaError::StateError));
    assert_eq!(conn.send_data(&[1], 0).unwrap_err(), RastaError::StateError);
    assert_eq!(conn.send_heartbeat(0).unwrap_err(), RastaError::StateError);
    conn.heartbeat_response(&Message::heartbeat(42, 1337, 1, 0, 0, 0));
    assert!(conn.step(RastaCommand::Wait, 0).is_err());
    assert!(conn.step(RastaCommand::Data(vec![1]), 0).is_err());
    assert!(matches!(conn.step(RastaCommand::Disconnect, 0), Ok(RastaAction::Disconnect(None))));
    assert_eq!(conn.connection_state_request(), RastaConnectionState::Closed);
}

#[test]
fn control_loop_turns() {
    let (mut conn, _) = handshake();
    match conn.step(RastaCommand::Data(vec![1, 2, 3]), 10).unwrap() {
        RastaAction::SendData(m) => {
            assert_eq!(m.message_type(), MessageType::Data);
            assert_eq!(m.data(), &[1, 2, 3][..]);
        }
        other => panic!("{:?}", other),
    }
    match conn.step(RastaCommand::Wait, 11).unwrap() {
        RastaAction::SendHeartbeat(m) => assert_eq!(m.message_type(), MessageType::HB),
        other => panic!("{:?}", other),
    }
    match conn.step(RastaCommand::Disconnect, 12).unwrap() {
        RastaAction::Disconnect(Some(m)) => assert_eq!(m.message_type(), MessageType::DiscReq),
        other => panic!("{:?}", other),
    }
    assert_eq!(conn.connection_state_request(), RastaConnectionState::Up);
    conn.disconnection_written();
    assert_eq!(conn.connection_state_request(), RastaConnectionState::Closed);
}

#[test]
fn only_data_is_kept_for_the_next_turn() {
    let data = Message::data_message(1, 2, 3, 4, 5, 6, &[7, 8]);
    assert_eq!(RastaConnection::received_data(&data), Some(vec![7, 8]));
    let heartbeat = Message::heartbeat(1, 2, 3, 4, 5, 6);
    assert_eq!(RastaConnection::received_data(&heartbeat), None);
}

#[test]
fn listener_rejects_a_wrong_confirmation() {
    let (mut conn, mut listener) = handshake();
    let good = conn.send_data(&[1], 0).unwrap();
    let bad = Message::data_message(1337, 42, good.sequence_number(), 77, 0, 0, &[1]);
    assert_eq!(listener.handle_message(&bad, 1, 0).unwrap_err(), RastaError::InvalidSeqNr);
    // the listener is unchanged: the right message still passes
    assert!(matches!(listener.handle_message(&good, 2, 0), Ok(ListenerAction::Deliver)));
}

#[test]
fn listener_answers_data_with_data_or_heartbeat() {
    let (mut conn, mut listener) = handshake();
    let message = conn.send_data(&[1, 2], 5000).unwrap();
    assert!(matches!(listener.handle_message(&message, 1, 5001), Ok(ListenerAction::Deliver)));
    let answer = listener.data_response(&message, Some(&[5, 6, 7, 8]), 5002);
    assert_eq!(answer.message_type(), MessageType::Data);
    assert_eq!(answer.data(), &[5, 6, 7, 8][..]);
    assert_eq!(answer.receiver(), 42);
    assert_eq!(answer.sender(), 1337);
    assert_eq!(answer.sequence_number(), message.sequence_number());
    assert_eq!(answer.confirmed_sequence_number(), message.sequence_number());
    assert_eq!(answer.timestamp(), 5002);
    assert_eq!(answer.confirmed_timestamp(), 5000);
    let silent = listener.data_response(&message, None, 5002);
    assert_eq!(silent.message_type(), MessageType::HB);
    assert_eq!(silent.sender(), 1337);
}

#[test]
fn listener_passes_over_strangers() {
    let mut listener = RastaListener::new(1337);
    let data = Message::data_message(1337, 7, 1, 0, 0, 0, &[1]);
    assert!(matches!(listener.handle_message(&data, 0, 0), Ok(ListenerAction::Continue)));
    let heartbeat = Message::heartbeat(1337, 7, 2, 1, 0, 0);
    assert!(matches!(listener.handle_message(&heartbeat, 1, 0), Ok(ListenerAction::Continue)));
    let response = Message::connection_response(1337, 7, 2, 0, 0, 1);
    assert!(matches!(listener.handle_message(&response, 3, 0), Ok(ListenerAction::Continue)));
    assert_eq!(listener.sequence_number(), Some(3));
    assert!(listener.connections().is_empty());
}

#[test]
fn listener_does_not_support_retransmission() {
    let mut listener = RastaListener::new(1337);
    let request = Message::retransmission_request(1337, 42, 1, 0, 0, 0);
    assert!(matches!(listener.handle_message(&request, 0, 0), Ok(ListenerAction::Unsupported)));
    let response = Message::retransmission_response(1337, 42, 2, 1, 0, 0);
    assert!(matches!(listener.handle_message(&response, 0, 0), Ok(ListenerAction::Unsupported)));
    let data = Message::retransmitted_data_message(1337, 42, 3, 2, 0, 0, &[1]);
    assert!(matches!(listener.handle_message(&data, 0, 0), Ok(ListenerAction::Unsupported)));
}

#[test]
fn stale_session_is_disconnected() {
    let (mut conn, mut listener) = handshake();
    let first = conn.send_heartbeat(1).unwrap();
    let answer = reply(listener.handle_message(&first, 100, 1).unwrap());
    conn.heartbeat_response(&answer);
    // nothing for 600 ms
    let late = conn.send_heartbeat(2).unwrap();
    match listener.handle_message(&late, 700, 77).unwrap() {
        ListenerAction::ReplyAndClose(m) => {
            assert_eq!(m.message_type(), MessageType::DiscReq);
            assert_eq!(m.length(), 40);
            assert_eq!(m.receiver(), 42);
            assert_eq!(m.sender(), 1337);
            assert_eq!(m.sequence_number(), late.sequence_number() + 1);
            assert_eq!(m.confirmed_sequence_number(), late.sequence_number());
            assert_eq!(m.timestamp(), 77);
            assert_eq!(m.confirmed_timestamp(), 2);
        }
        other => panic!("{:?}", other),
    }
}

#[test]
fn the_timeout_itself_is_not_too_long() {
    let (mut conn, mut listener) = handshake();
    let first = conn.send_heartbeat(1).unwrap();
    let answer = reply(listener.handle_message(&first, 100, 1).unwrap());
    conn.heartbeat_response(&answer);
    let next = conn.send_heartbeat(2).unwrap();
    let action = listener.handle_message(&next, 100 + RASTA_TIMEOUT_MS, 2).unwrap();
    assert!(matches!(action, ListenerAction::Reply(_)));
    assert_eq!(RASTA_TIMEOUT_MS, 500);
}

#[test]
fn a_lost_stream_drops_its_peer() {
    let (_, mut listener) = handshake();
    assert_eq!(listener.peer(), Some(42));
    assert_eq!(listener.connection_lost(), Some(42));
    assert_eq!(listener.peer(), None);
    assert!(listener.connections().is_empty());
    assert_eq!(listener.sequence_number(), None);
    assert_eq!(listener.connection_lost(), None);
    // the next session starts afresh
    let request = Message::connection_request_with_sequence_number(1337, 43, 100, 0, 0);
    assert!(matches!(listener.handle_message(&request, 1_000_000, 0), Ok(ListenerAction::Reply(_))));
    assert_eq!(listener.connections(), &[43][..]);
    assert_eq!(listener.id(), 1337);
}

#[test]
fn io_failures_are_timeouts_or_io_errors() {
    assert_eq!(RastaError::from_io(true), RastaError::Timeout);
    assert_eq!(RastaError::from_io(false), RastaError::IOError);
}

fn mapping() -> Vec<(String, u32)> {
    vec![("S".to_string(), 1337), ("T".to_string(), 1338), ("S".to_string(), 9)]
}

#[test]
fn point_change_end_to_end() {
    let mut session = SCIConnection::try_new(RastaConnection::new(42), "C".to_string(), mapping()).unwrap();
    let mut listener = SCIListener::new(RastaListener::new(1337), "S".to_string());
    assert_eq!(session.name(), "C");
    assert_eq!(listener.name(), "S");
    let telegram = SCITelegram::change_location("C", "S", SCIPointTargetLocation::PointLocationChangeToLeft);
    // the connection is down: the first thing to send is the connection request
    let request = match session.send_telegram(&telegram, 1000).unwrap() {
        SCISend::Open(m) => m,
        other => panic!("{:?}", other),
    };
    assert_eq!(request.message_type(), MessageType::ConnReq);
    assert_eq!(request.receiver(), 1337);
    assert_eq!(request.sender(), 42);
    let response = reply(listener.handle_message(&request, 0, 1001).unwrap());
    session.connection_response(&response).unwrap();
    assert_eq!(session.connection().connection_state_request(), RastaConnectionState::Up);
    // now the telegram goes out
    let frame = match session.send_telegram(&telegram, 1002).unwrap() {
        SCISend::Data(m) => m,
        other => panic!("{:?}", other),
    };
    assert_eq!(frame.length(), 36 + 44);
    assert_eq!(frame.message_type(), MessageType::Data);
    assert_eq!(frame.message_type().code(), 6240);
    let mut payload = vec![0x40, 0x01, 0x00];
    payload.extend_from_slice(b"C___________________");
    payload.extend_from_slice(b"S___________________");
    payload.push(0x02);
    assert_eq!(frame.data(), &payload[..]);
    assert_eq!(&frame.as_bytes()[34..78], &payload[..]);
    // the listener decodes and answers with the location status
    let received = Message::decode(frame.as_bytes()).unwrap();
    assert!(matches!(listener.handle_message(&received, 10, 1003), Ok(ListenerAction::Deliver)));
    let asked = SCIListener::telegram(&received).unwrap();
    assert_eq!(asked.message_type, SCIMessageType::scip_change_location());
    assert_eq!(asked.payload.as_slice(), &[0x02][..]);
    let status = SCITelegram::location_status("S", "C", SCIPointLocation::PointLocationLeft);
    let answer = listener.telegram_response(&received, Some(&status), 1004);
    assert_eq!(answer.message_type(), MessageType::Data);
    let told = session.receive_telegram(answer.as_bytes()).unwrap();
    assert_eq!(told.message_type, SCIMessageType::scip_location_status());
    assert_eq!(told.sender, "S___________________");
    assert_eq!(told.payload.as_slice(), &[0x02][..]);
}

#[test]
fn missing_mapping_leaves_the_session_usable() {
    let mut session = SCIConnection::try_new(RastaConnection::new(42), "C".to_string(), Vec::new()).unwrap();
    let telegram = SCITelegram::change_location("C", "X", SCIPointTargetLocation::PointLocationChangeToLeft);
    assert_eq!(
        session.send_telegram(&telegram, 0).unwrap_err(),
        RastaError::MissingRastaId
    );
    assert_eq!(session.connection().connection_state_request(), RastaConnectionState::Down);
    assert_eq!(session.send_telegram(&telegram, 1).unwrap_err(), RastaError::MissingRastaId);
    assert_eq!(session.open(&"X".to_string(), 2).unwrap_err(), RastaError::MissingRastaId);
    assert_eq!(session.rasta_id(&"X".to_string()), None);
    assert_eq!(session.name(), "C");
}

#[test]
fn names_resolve_to_their_first_entry() {
    let session = SCIConnection::try_new(RastaConnection::new(42), "C".to_string(), mapping()).unwrap();
    assert_eq!(session.rasta_id(&"S".to_string()), Some(1337));
    assert_eq!(session.rasta_id(&"T".to_string()), Some(1338));
    assert_eq!(session.rasta_id(&"s".to_string()), None);
    let request = session.open(&"T".to_string(), 7).unwrap().unwrap();
    assert_eq!(request.receiver(), 1338);
    assert_eq!(request.timestamp(), 7);
}

#[test]
fn a_session_needs_a_connection_that_is_down() {
    let (conn, _) = handshake();
    assert_eq!(
        SCIConnection::try_new(conn, "C".to_string(), mapping()).unwrap_err(),
        RastaError::StateError
    );
}

#[test]
fn session_control_loop_turns() {
    let mut session = SCIConnection::try_new(RastaConnection::new(42), "C".to_string(), mapping()).unwrap();
    let mut listener = RastaListener::new(1337);
    let telegram = SCITelegram::timeout(rasta_rs::sci::ProtocolType::SCIProtocolP, "C", "S");
    let (request, telegram) = match session.step(SCICommand::Telegram(telegram), 0).unwrap() {
        SCIAction::Open(m, t) => (m, t),
        other => panic!("{:?}", other),
    };
    assert_eq!(telegram.receiver, "S");
    let response = reply(listener.handle_message(&request, 0, 0).unwrap());
    session.connection_response(&response).unwrap();
    match session.step(SCICommand::Telegram(telegram), 1).unwrap() {
        SCIAction::SendTelegram(m) => {
            assert_eq!(m.data().len(), 43);
            assert!(matches!(listener.handle_message(&m, 1, 1), Ok(ListenerAction::Deliver)));
        }
        other => panic!("{:?}", other),
    }
    match session.step(SCICommand::Wait, 2).unwrap() {
        SCIAction::SendHeartbeat(m) => {
            let heartbeat = Message::decode(m.as_bytes()).unwrap();
            let answer = reply(listener.handle_message(&heartbeat, 2, 2).unwrap());
            session.heartbeat_response(&answer);
        }
        other => panic!("{:?}", other),
    }
    match session.step(SCICommand::Disconnect, 3).unwrap() {
        SCIAction::Disconnect(Some(m)) => assert_eq!(m.message_type(), MessageType::DiscReq),
        other => panic!("{:?}", other),
    }
    assert_eq!(session.connection().connection_state_request(), RastaConnectionState::Up);
    session.disconnection_written();
    assert!(matches!(session.step(SCICommand::Disconnect, 4), Ok(SCIAction::Disconnect(None))));
    assert_eq!(session.step(SCICommand::Wait, 5).unwrap_err(), RastaError::StateError);
    assert_eq!(session.connection().connection_state_request(), RastaConnectionState::Closed);
}

#[test]
fn frames_that_hold_no_telegram_are_malformed() {
    let session = SCIConnection::try_new(RastaConnection::new(42), "C".to_string(), mapping()).unwrap();
    let heartbeat = Message::heartbeat(42, 1337, 1, 0, 0, 0);
    assert_eq!(session.receive_telegram(heartbeat.as_bytes()).unwrap_err(), RastaError::Malformed);
    assert_eq!(session.receive_telegram(&[1, 2, 3]).unwrap_err(), RastaError::Malformed);
    let mut bad = SCITelegram::timeout(rasta_rs::sci::ProtocolType::SCIProtocolP, "a", "b").encode();
    bad[0] = 0x99;
    let frame = Message::data_message(42, 1337, 1, 0, 0, 0, &bad);
    assert_eq!(session.receive_telegram(frame.as_bytes()).unwrap_err(), RastaError::Malformed);
    let mut unknown = Message::heartbeat(42, 1337, 1, 0, 0, 0).as_bytes().to_vec();
    unknown[3] = 0;
    unknown[4] = 0;
    assert_eq!(
        session.receive_telegram(&unknown).unwrap_err(),
        RastaError::UnknownMessageType(0)
    );
}

#[test]
fn sci_listener_answers_silence_with_a_heartbeat() {
    let (mut conn, listener) = handshake();
    let mut listener = SCIListener::new(listener, "S".to_string());
    let message = conn.send_data(&[0; 3], 0).unwrap();
    assert!(matches!(listener.handle_message(&message, 1, 0), Ok(ListenerAction::Deliver)));
    assert!(SCIListener::telegram(&message).is_err());
    let answer = listener.telegram_response(&message, None, 1);
    assert_eq!(answer.message_type(), MessageType::HB);
    assert_eq!(listener.connection_lost(), Some(42));
}

#[test]
fn a_failed_write_of_the_disconnection_request_leaves_the_connection_up() {
    let (mut conn, _) = handshake();
    let before = conn.sequence_number().unwrap();
    let first = conn.close_connection(1).unwrap();
    // the write fails: nobody tells the connection that it was written
    assert_eq!(conn.connection_state_request(), RastaConnectionState::Up);
    assert_eq!(conn.sequence_number(), Some(before + 1));
    // a second try gives the next request
    let second = conn.close_connection(2).unwrap();
    assert_eq!(second.confirmed_sequence_number(), first.sequence_number());
    conn.disconnection_written();
    assert_eq!(conn.connection_state_request(), RastaConnectionState::Closed);
}

#[test]
fn telling_a_connection_that_is_down_changes_nothing() {
    let mut conn = RastaConnection::new(42);
    conn.disconnection_written();
    assert_eq!(conn.connection_state_request(), RastaConnectionState::Down);
}

#[test]
fn every_disconnection_request_ends_the_stream() {
    let mut listener = RastaListener::new(1337);
    let stranger = Message::disconnection_request(1337, 7, 1, 0, 0, 0);
    assert!(matches!(listener.handle_message(&stranger, 0, 0), Ok(ListenerAction::Close)));
    assert!(listener.connections().is_empty());
    let (mut conn, mut listener) = handshake();
    let request = conn.close_connection(0).unwrap();
    assert!(matches!(listener.handle_message(&request, 2, 0), Ok(ListenerAction::Close)));
    assert!(listener.connections().is_empty());
}

#[test]
fn a_peer_is_among_the_connected_peers_once() {
    let mut listener = RastaListener::new(1337);
    let first = Message::connection_request_with_sequence_number(1337, 42, 4, 0, 0);
    assert!(matches!(listener.handle_message(&first, 0, 0), Ok(ListenerAction::Reply(_))));
    assert_eq!(listener.connection_lost(), Some(42));
    let again = Message::connection_request_with_sequence_number(1337, 42, 4, 0, 0);
    assert!(matches!(listener.handle_message(&again, 1, 0), Ok(ListenerAction::Reply(_))));
    // a second request of the same peer in the same session
    let mut repeated = Message::connection_request_with_sequence_number(1337, 42, 6, 0, 0)
        .as_bytes()
        .to_vec();
    repeated[19] = 5;
    let repeated = Message::decode(&repeated).unwrap();
    assert!(matches!(listener.handle_message(&repeated, 2, 0), Ok(ListenerAction::Reply(_))));
    assert_eq!(listener.connections(), &[42][..]);
    let goodbye = Message::disconnection_request(1337, 42, 8, 7, 0, 0);
    assert!(matches!(listener.handle_message(&goodbye, 3, 0), Ok(ListenerAction::Close)));
    assert!(listener.connections().is_empty());
}

/// A connection request that confirms what the listener expects.
fn request_confirming(sender: u32, sequence_number: u32, confirmed: u32) -> Message {
    let mut bytes = Message::connection_request_with_sequence_number(1337, sender, sequence_number, 0, 0)
        .as_bytes()
        .to_vec();
    bytes[19..23].copy_from_slice(&confirmed.to_le_bytes());
    Message::decode(&bytes).unwrap()
}

#[test]
fn a_lost_stream_keeps_every_other_peer() {
    let mut listener = RastaListener::new(1337);
    let first = request_confirming(42, 4, 0);
    assert!(matches!(listener.handle_message(&first, 0, 0), Ok(ListenerAction::Reply(_))));
    // the stream of 42 falls silent and is left; 42 stays among the peers
    let late = Message::heartbeat(1337, 42, 6, 5, 0, 0);
    assert!(matches!(
        listener.handle_message(&late, 1_000, 0),
        Ok(ListenerAction::ReplyAndClose(_))
    ));
    assert_eq!(listener.peer(), None);
    assert_eq!(listener.connections(), &[42][..]);
    // 43 comes, and then 42 once more
    let second = request_confirming(43, 10, 5);
    assert!(matches!(listener.handle_message(&second, 2_000, 0), Ok(ListenerAction::Reply(_))));
    assert_eq!(listener.connections(), &[42, 43][..]);
    let third = request_confirming(42, 20, 11);
    assert!(matches!(listener.handle_message(&third, 2_001, 0), Ok(ListenerAction::Reply(_))));
    assert_eq!(listener.connections(), &[42, 43][..]);
    assert_eq!(listener.peer(), Some(42));
    // the stream breaks: its peer 42 goes, 43 stays
    assert_eq!(listener.connection_lost(), Some(42));
    assert_eq!(listener.connections(), &[43][..]);
    assert_eq!(listener.connection_lost(), None);
    assert_eq!(listener.connections(), &[43][..]);
}
