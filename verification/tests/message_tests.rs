use rasta_rs::message::{Message, MessageBuilder, MessageType, RASTA_VERSION};
use rasta_rs::RastaError;

#[test]
fn test_conn_req_len() {}

#[test]
fn connection_request_has_50_bytes() {
    let m = Message::connection_request(1337, 42, 1000, 65535);
    assert_eq!(m.length(), 50);
    assert_eq!(m.as_bytes().len(), 50);
    assert_eq!(m.message_type(), MessageType::ConnReq);
    assert_eq!(m.receiver(), 1337);
    assert_eq!(m.sender(), 42);
    assert_eq!(m.confirmed_sequence_number(), 0);
    assert_eq!(m.timestamp(), 1000);
    assert_eq!(m.confirmed_timestamp(), 0);
    assert_eq!(
        m.data(),
        &[0x30, 0x33, 0x30, 0x31, 0, 0xFF, 0xFF, 0, 0, 0, 0, 0, 0, 0][..]
    );
}

#[test]
fn connection_request_keeps_the_given_sequence_number() {
    let m = Message::connection_request_with_sequence_number(1337, 42, 4, 1000, 100);
    assert_eq!(m.sequence_number(), 4);
    assert_eq!(m.data()[5], 100);
    assert_eq!(m.data()[6], 0);
}

#[test]
fn connection_response_follows_the_confirmed_sequence_number() {
    let m = Message::connection_response(42, 1337, 4, 2000, 1000, 65535);
    assert_eq!(m.message_type(), MessageType::ConnResp);
    assert_eq!(m.length(), 50);
    assert_eq!(m.sequence_number(), 5);
    assert_eq!(m.confirmed_sequence_number(), 4);
    assert_eq!(m.timestamp(), 2000);
    assert_eq!(m.confirmed_timestamp(), 1000);
    assert_eq!(&m.data()[0..4], b"0301");
}

#[test]
fn connection_response_wraps_the_sequence_number() {
    let m = Message::connection_response(42, 1337, u32::MAX, 0, 0, 1);
    assert_eq!(m.sequence_number(), 0);
}

#[test]
fn heartbeat_has_36_bytes_and_reads_back() {
    let m = Message::heartbeat(1337, 42, 7, 6, 1000, 999);
    assert_eq!(m.length(), 36);
    assert_eq!(m.as_bytes().len(), 36);
    assert_eq!(m.message_type(), MessageType::HB);
    assert_eq!(m.receiver(), 1337);
    assert_eq!(m.sender(), 42);
    assert_eq!(m.sequence_number(), 7);
    assert_eq!(m.confirmed_sequence_number(), 6);
    assert_eq!(m.timestamp(), 1000);
    assert_eq!(m.confirmed_timestamp(), 999);
    assert!(m.data().is_empty());
}

#[test]
fn heartbeat_bytes_are_little_endian_at_their_offsets() {
    let m = Message::heartbeat(0x0403_0201, 0x0807_0605, 0x0C0B_0A09, 0x100F_0E0D, 0x1413_1211, 0x1817_1615);
    let expected: [u8; 36] = [
        36, 0, 0, 0x4C, 0x18, 0, 1, 2, 3, 4, 5, 6, 7, 8, 0, 9, 10, 11, 12, 13, 14, 15, 16, 0, 0x11,
        0x12, 0x13, 0x14, 0, 0x15, 0x16, 0x17, 0x18, 0, 0, 0,
    ];
    assert_eq!(m.as_bytes(), &expected[..]);
}

#[test]
fn disconnection_request_has_40_bytes() {
    let m = Message::disconnection_request(1, 2, 3, 4, 5, 6);
    assert_eq!(m.length(), 40);
    assert_eq!(m.as_bytes().len(), 40);
    assert_eq!(m.message_type(), MessageType::DiscReq);
    assert!(m.data().is_empty());
    assert_eq!(&m.as_bytes()[34..], &[0u8; 6][..]);
    assert_eq!(m.security_code(), [0u8; 8]);
}

#[test]
fn retransmission_messages_have_36_bytes() {
    let a = Message::retransmission_request(1, 2, 3, 4, 5, 6);
    let b = Message::retransmission_response(1, 2, 3, 4, 5, 6);
    assert_eq!(a.message_type(), MessageType::RetrReq);
    assert_eq!(b.message_type(), MessageType::RetrResp);
    assert_eq!(a.length(), 36);
    assert_eq!(b.length(), 36);
    assert!(a.message_type().is_retransmission());
    assert!(!Message::heartbeat(1, 2, 3, 4, 5, 6).message_type().is_retransmission());
}

#[test]
fn data_message_is_36_bytes_longer_than_its_data() {
    let m = Message::data_message(1337, 42, 8, 7, 1000, 999, &[1, 2, 3, 4]);
    assert_eq!(m.length(), 40);
    assert_eq!(m.as_bytes().len(), 40);
    assert_eq!(m.message_type(), MessageType::Data);
    assert_eq!(m.data(), &[1, 2, 3, 4][..]);
    assert_eq!(&m.as_bytes()[34..38], &[1, 2, 3, 4][..]);
    assert_eq!(&m.as_bytes()[38..], &[0, 0][..]);
    let r = Message::retransmitted_data_message(1337, 42, 8, 7, 1000, 999, &[9]);
    assert_eq!(r.message_type(), MessageType::RetrData);
    assert_eq!(r.length(), 37);
    assert_eq!(r.data(), &[9][..]);
}

#[test]
fn empty_data_message_has_36_bytes() {
    let m = Message::data_message(1, 2, 3, 4, 5, 6, &[]);
    assert_eq!(m.length(), 36);
    assert!(m.data().is_empty());
}

#[test]
fn every_kind_round_trips() {
    let messages = vec![
        Message::connection_request_with_sequence_number(1, 2, 3, 4, 5),
        Message::connection_response(1, 2, 3, 4, 5, 6),
        Message::retransmission_request(1, 2, 3, 4, 5, 6),
        Message::retransmission_response(1, 2, 3, 4, 5, 6),
        Message::heartbeat(1, 2, 3, 4, 5, 6),
        Message::disconnection_request(1, 2, 3, 4, 5, 6),
        Message::data_message(1, 2, 3, 4, 5, 6, &[7, 8, 9, 10, 11, 12, 13, 14, 15]),
        Message::retransmitted_data_message(1, 2, 3, 4, 5, 6, &[7]),
    ];
    for m in messages {
        let decoded = Message::decode(m.as_bytes()).unwrap();
        assert_eq!(decoded.as_bytes(), m.as_bytes());
        assert_eq!(decoded.length() as usize, m.as_bytes().len());
        assert!(decoded.length() >= 36);
        assert_eq!(decoded.message_type(), m.message_type());
        assert_eq!(decoded.receiver(), m.receiver());
        assert_eq!(decoded.sender(), m.sender());
        assert_eq!(decoded.sequence_number(), m.sequence_number());
        assert_eq!(decoded.confirmed_sequence_number(), m.confirmed_sequence_number());
        assert_eq!(decoded.timestamp(), m.timestamp());
        assert_eq!(decoded.confirmed_timestamp(), m.confirmed_timestamp());
        assert_eq!(decoded.data(), m.data());
    }
}

#[test]
fn short_frame_is_malformed() {
    assert_eq!(Message::decode(&[0u8; 35]).unwrap_err(), RastaError::Malformed);
    assert_eq!(Message::decode(&[]).unwrap_err(), RastaError::Malformed);
}

#[test]
fn wrong_length_field_is_malformed() {
    let mut bytes = Message::heartbeat(1, 2, 3, 4, 5, 6).as_bytes().to_vec();
    bytes.push(0);
    assert_eq!(Message::decode(&bytes).unwrap_err(), RastaError::Malformed);
    let mut bytes = Message::heartbeat(1, 2, 3, 4, 5, 6).as_bytes().to_vec();
    bytes[0] = 37;
    assert_eq!(Message::decode(&bytes).unwrap_err(), RastaError::Malformed);
}

#[test]
fn unknown_type_code_is_reported_with_its_code() {
    let mut bytes = Message::heartbeat(1, 2, 3, 4, 5, 6).as_bytes().to_vec();
    bytes[3] = 0x39;
    bytes[4] = 0x30;
    assert_eq!(
        Message::decode(&bytes).unwrap_err(),
        RastaError::UnknownMessageType(12345)
    );
    assert_eq!(
        MessageType::try_from(0).unwrap_err(),
        RastaError::UnknownMessageType(0)
    );
}

#[test]
fn length_that_the_kind_cannot_have_is_malformed() {
    let mut bytes = Message::data_message(1, 2, 3, 4, 5, 6, &[0; 4]).as_bytes().to_vec();
    // the same 40 bytes, as a heartbeat
    bytes[3] = 0x4C;
    bytes[4] = 0x18;
    assert_eq!(Message::decode(&bytes).unwrap_err(), RastaError::Malformed);
}

#[test]
fn message_type_codes() {
    let codes = [
        (MessageType::ConnReq, 6200),
        (MessageType::ConnResp, 6201),
        (MessageType::RetrReq, 6212),
        (MessageType::RetrResp, 6213),
        (MessageType::DiscReq, 6216),
        (MessageType::HB, 6220),
        (MessageType::Data, 6240),
        (MessageType::RetrData, 6241),
    ];
    for (kind, code) in codes {
        assert_eq!(kind.code(), code);
        assert_eq!(MessageType::try_from(code), Ok(kind));
    }
}

#[test]
fn builder_builds_what_it_was_told() {
    let builder = MessageBuilder::new()
        .length(38)
        .message_type(MessageType::Data)
        .receiver(10)
        .sender(20)
        .sequence_number(30)
        .confirmed_sequence_number(40)
        .timestamp(50)
        .confirmed_timestamp(60)
        .data(&[0xAA, 0xBB])
        .security_code(&[1, 2, 3, 4, 5, 6, 7, 8]);
    assert!(builder.is_complete());
    let m = builder.build();
    assert_eq!(m.length(), 38);
    assert_eq!(m.receiver(), 10);
    assert_eq!(m.sender(), 20);
    assert_eq!(m.sequence_number(), 30);
    assert_eq!(m.confirmed_sequence_number(), 40);
    assert_eq!(m.timestamp(), 50);
    assert_eq!(m.confirmed_timestamp(), 60);
    assert_eq!(m.data(), &[0xAA, 0xBB][..]);
    // header and data win over the security code area: only its last two
    // bytes lie behind the data, and the others count as zero
    assert_eq!(&m.as_bytes()[36..], &[7, 8][..]);
    assert_eq!(m.security_code(), [0, 0, 0, 0, 0, 0, 7, 8]);
}

#[test]
fn builder_without_kind_or_with_wrong_length_is_incomplete() {
    assert!(!MessageBuilder::new().length(36).is_complete());
    assert!(!MessageBuilder::default().length(37).message_type(MessageType::HB).is_complete());
    assert!(MessageBuilder::new().length(36).message_type(MessageType::HB).is_complete());
    assert!(!MessageBuilder::new()
        .length(36)
        .message_type(MessageType::Data)
        .data(&[1])
        .is_complete());
}

#[test]
fn the_version_is_0301() {
    assert_eq!(&RASTA_VERSION, b"0301");
    assert_eq!(RASTA_VERSION, [0x30, 0x33, 0x30, 0x31]);
    let request = Message::connection_request_with_sequence_number(1, 2, 3, 4, 5);
    assert_eq!(&request.data()[..4], &RASTA_VERSION[..]);
}

#[test]
fn a_message_and_its_copy_are_the_same_frame() {
    let m = Message::data_message(1, 2, 3, 4, 5, 6, &[7, 8, 9]);
    let c = m.clone();
    assert_eq!(c.as_bytes(), m.as_bytes());
}

#[test]
fn random_connection_requests_are_connection_requests() {
    for _ in 0..16 {
        let m = Message::connection_request(7, 8, 9, 10);
        assert_eq!(m.message_type(), MessageType::ConnReq);
        assert_eq!(m.length(), 50);
        assert_eq!(m.receiver(), 7);
        assert_eq!(m.sender(), 8);
        assert_eq!(m.timestamp(), 9);
        let again = Message::connection_request_with_sequence_number(7, 8, m.sequence_number(), 9, 10);
        assert_eq!(again.as_bytes(), m.as_bytes());
    }
}

#[test]
fn every_constructed_message_has_a_zero_security_code() {
    let t = 1_800_000_000;
    let messages = vec![
        Message::connection_request(u32::MAX, u32::MAX, t, 65535),
        Message::connection_request_with_sequence_number(u32::MAX, u32::MAX, u32::MAX, t, 65535),
        Message::connection_response(u32::MAX, u32::MAX, u32::MAX - 1, t, t, 65535),
        Message::retransmission_request(u32::MAX, u32::MAX, u32::MAX, u32::MAX, t, t),
        Message::retransmission_response(u32::MAX, u32::MAX, u32::MAX, u32::MAX, t, t),
        Message::heartbeat(u32::MAX, u32::MAX, u32::MAX, u32::MAX, t, t),
        Message::disconnection_request(u32::MAX, u32::MAX, u32::MAX, u32::MAX, t, u32::MAX),
        Message::data_message(1, 2, 3, 4, t, t, &[0xFF; 20]),
        Message::data_message(1, 2, 3, 4, t, t, &[0xFF; 3]),
        Message::retransmitted_data_message(1, 2, 3, 4, t, t, &[0xFF; 9]),
    ];
    for m in messages {
        assert_eq!(m.security_code(), [0u8; 8]);
        let decoded = Message::decode(m.as_bytes()).unwrap();
        assert_eq!(decoded.security_code(), [0u8; 8]);
    }
}
