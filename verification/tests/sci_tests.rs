use rasta_rs::sci::scils::{
    SCILSAdditional, SCILSBrightness, SCILSDarkSwitching, SCILSDepreciationInformation,
    SCILSDrivewayInformation, SCILSMain, SCILSSignalAspect, SCILSZs2, SCILSZs3, SciLsError,
};
use rasta_rs::sci::scip::{SCIPointLocation, SCIPointTargetLocation, SciPError};
use rasta_rs::sci::scitds::{
    checked_bcd, to_bcd, ChangeTrigger, DirectionOfPassing, DisturbanceStatus, FCMode,
    FCPFailureReason, NeuProOccupancyStatusPayload, OccupancyStatus, OccupancyStatusPayload,
    POMStatus, RejectionReason, SciTdsError, StateOfPassing,
};
use rasta_rs::sci::{
    str_to_sci_name, ProtocolType, SCICloseReason, SCIMessageType, SCIPayload, SCITelegram,
    SCIVersionCheckResult, SciError, SCI_VERSION,
};
use rasta_rs::RastaError;

#[test]
fn test_bcd() {
    assert_eq!(to_bcd([0, 0, 0, 1]), 1);
    assert_eq!(to_bcd([0, 0, 1, 1]), 17);
    assert_eq!(to_bcd([0, 1, 1, 1]), 273);
    assert_eq!(to_bcd([1, 1, 1, 1]), 4369);
}

#[test]
fn bcd_is_the_weighted_sum_of_its_digits() {
    assert_eq!(to_bcd([9, 8, 7, 6]), 9 * 4096 + 8 * 256 + 7 * 16 + 6);
    assert_eq!(to_bcd([1, 2, 3, 4]), 0x1234);
    assert_eq!(to_bcd([0, 0, 0, 0]), 0);
    assert_eq!(to_bcd([9, 9, 9, 9]), 0x9999);
}

#[test]
fn a_value_above_nine_is_no_digit() {
    assert_eq!(checked_bcd([0, 0, 0, 10]), None);
    assert_eq!(checked_bcd([10, 0, 0, 0]), None);
    assert_eq!(checked_bcd([0, 255, 0, 0]), None);
    assert_eq!(checked_bcd([1, 2, 3, 4]), Some(0x1234));
}

#[test]
fn additional_information_packs_two_digits_to_a_byte() {
    let t = SCITelegram::additional_information("a", "b", [1, 2, 3, 4], [5, 6, 7, 8]);
    assert_eq!(t.payload.used, 4);
    assert_eq!(&t.payload.data[..4], &[0x12, 0x34, 0x56, 0x78]);
    assert_eq!(t.message_type, SCIMessageType::scitds_additional_information());
    assert_eq!(t.protocol_type, ProtocolType::SCIProtocolTDS);
}

#[test]
fn names_are_filled_up_with_underscores() {
    assert_eq!(str_to_sci_name("C"), b"C___________________".to_vec());
    assert_eq!(str_to_sci_name(""), b"____________________".to_vec());
    assert_eq!(str_to_sci_name("exactly_twenty_chars"), b"exactly_twenty_chars".to_vec());
}

#[test]
fn long_names_are_cut_to_twenty_bytes() {
    assert_eq!(
        str_to_sci_name("a_name_that_is_far_too_long"),
        b"a_name_that_is_far_t".to_vec()
    );
}

#[test]
fn change_location_encodes_to_its_layout() {
    let t = SCITelegram::change_location("C", "S", SCIPointTargetLocation::PointLocationChangeToLeft);
    let bytes = t.encode();
    let mut expected = vec![0x40, 0x01, 0x00];
    expected.extend_from_slice(b"C___________________");
    expected.extend_from_slice(b"S___________________");
    expected.push(0x02);
    assert_eq!(bytes, expected);
    assert_eq!(bytes.len(), 44);
}

#[test]
fn message_type_is_little_endian() {
    let t = SCITelegram::assemble(ProtocolType::SCIProtocolTDS, SCIMessageType(0x0012), "a", "b", &[]);
    let bytes = t.encode();
    assert_eq!(&bytes[..3], &[0x20, 0x12, 0x00]);
    assert_eq!(bytes.len(), 43);
}

#[test]
fn name_fields_hold_no_control_bytes_and_end_in_underscores() {
    let t = SCITelegram::location_status("Point 1", "Interlocking", SCIPointLocation::PointBumped);
    let bytes = t.encode();
    assert!(bytes[3..43].iter().all(|b| *b >= 0x20));
    assert!(bytes[3 + 7..23].iter().all(|b| *b == 0x5F));
    assert!(bytes[23 + 12..43].iter().all(|b| *b == 0x5F));
    assert_eq!(&bytes[3..10], b"Point 1");
}

#[test]
fn telegram_round_trips_with_padded_names() {
    let t = SCITelegram::location_status("C", "S", SCIPointLocation::PointLocationLeft);
    let back = SCITelegram::try_from(&t.encode()).unwrap();
    assert_eq!(back.protocol_type, ProtocolType::SCIProtocolP);
    assert_eq!(back.message_type, SCIMessageType::scip_location_status());
    assert_eq!(back.sender, "C___________________");
    assert_eq!(back.receiver, "S___________________");
    assert_eq!(back.payload.used, 1);
    assert_eq!(back.payload.data[0], 0x02);
    assert!(back.payload.data[1..].iter().all(|b| *b == 0));
    // a second trip changes nothing more
    let again = SCITelegram::try_from(&back.encode()).unwrap();
    assert_eq!(again.sender, back.sender);
    assert_eq!(again.receiver, back.receiver);
    assert_eq!(again.encode(), back.encode());
}

#[test]
fn long_names_round_trip_to_their_first_twenty_bytes() {
    let t = SCITelegram::timeout(
        ProtocolType::SCIProtocolLS,
        "a_name_that_is_far_too_long",
        "another_name_that_is_too_long",
    );
    let back = SCITelegram::try_from(&t.encode()).unwrap();
    assert_eq!(back.sender, "a_name_that_is_far_t");
    assert_eq!(back.receiver, "another_name_that_is");
    assert_eq!(back.payload.used, 0);
}

#[test]
fn every_protocol_round_trips_its_message_types() {
    let cases: Vec<(ProtocolType, Vec<u16>)> = vec![
        (ProtocolType::SCIProtocolP, vec![0x0001, 0x000B, 0x0024, 0x000C]),
        (ProtocolType::SCIProtocolLS, vec![0x0001, 0x0002, 0x0003, 0x0004, 0x0021]),
        (
            ProtocolType::SCIProtocolTDS,
            vec![0x0001, 0x0002, 0x0003, 0x0008, 0x0006, 0x0007, 0x0010, 0x0011, 0x0012, 0x000B, 0x002B],
        ),
        (ProtocolType::SCIProtocolAIS, vec![0x0024, 0x0025, 0x0027]),
    ];
    for (protocol, codes) in cases {
        for code in codes {
            let t = SCITelegram::assemble(protocol, SCIMessageType(code), "sender", "receiver", &[1, 2, 3]);
            let back = SCITelegram::try_from(&t.encode()).unwrap();
            assert_eq!(back.protocol_type, protocol);
            assert_eq!(back.message_type, SCIMessageType(code));
            assert_eq!(back.sender, "sender______________");
            assert_eq!(back.receiver, "receiver____________");
            assert_eq!(back.payload.as_slice(), &[1, 2, 3][..]);
        }
    }
}

#[test]
fn full_payload_round_trips() {
    let payload: Vec<u8> = (0..85).collect();
    let t = SCITelegram::assemble(ProtocolType::SCIProtocolP, SCIMessageType(1), "a", "b", &payload);
    let bytes = t.encode();
    assert_eq!(bytes.len(), 128);
    let back = SCITelegram::try_from(&bytes).unwrap();
    assert_eq!(back.payload.as_slice(), &payload[..]);
    assert_eq!(back.payload.used, 85);
    assert_eq!(t.payload.used, 85);
}

#[test]
fn a_decoded_payload_counts_what_follows_the_names() {
    for n in [0usize, 1, 7, 84, 85] {
        let payload = vec![0xEE; n];
        let t = SCITelegram::assemble(ProtocolType::SCIProtocolLS, SCIMessageType(2), "a", "b", &payload);
        let back = SCITelegram::try_from(&t.encode()).unwrap();
        assert_eq!(back.payload.used, n);
        assert_eq!(&back.payload.data[..n], &payload[..]);
        assert!(back.payload.data[n..].iter().all(|b| *b == 0));
    }
}

#[test]
fn only_day_and_night_can_be_asked_for() {
    assert!(SCILSBrightness::Day.can_be_asked_for());
    assert!(SCILSBrightness::Night.can_be_asked_for());
    assert!(!SCILSBrightness::Undefined.can_be_asked_for());
}

#[test]
fn short_telegram_is_malformed() {
    assert_eq!(SCITelegram::try_from(&[0x40; 42]).unwrap_err(), SciError::Malformed);
    assert_eq!(SCITelegram::try_from(&[]).unwrap_err(), SciError::Malformed);
}

#[test]
fn too_long_telegram_is_malformed() {
    let mut bytes = SCITelegram::timeout(ProtocolType::SCIProtocolP, "a", "b").encode();
    bytes.extend_from_slice(&[0; 86]);
    assert_eq!(SCITelegram::try_from(&bytes).unwrap_err(), SciError::Malformed);
}

#[test]
fn unknown_protocol_is_reported() {
    let mut bytes = SCITelegram::timeout(ProtocolType::SCIProtocolP, "a", "b").encode();
    bytes[0] = 0x99;
    assert_eq!(SCITelegram::try_from(&bytes).unwrap_err(), SciError::UnknownProtocol(0x99));
    assert_eq!(ProtocolType::try_from(0x00).unwrap_err(), SciError::UnknownProtocol(0));
}

#[test]
fn message_type_of_another_protocol_is_unknown() {
    // 0x0012 is AdditionalInformation for train detection only
    let t = SCITelegram::assemble(ProtocolType::SCIProtocolP, SCIMessageType(0x0012), "a", "b", &[]);
    assert_eq!(
        SCITelegram::try_from(&t.encode()).unwrap_err(),
        SciError::UnknownMessageType(0x0012)
    );
    // a reserved protocol knows the shared codes only
    let t = SCITelegram::assemble(ProtocolType::SCIProtocolRBC, SCIMessageType(0x0001), "a", "b", &[]);
    assert_eq!(
        SCITelegram::try_from(&t.encode()).unwrap_err(),
        SciError::UnknownMessageType(0x0001)
    );
}

#[test]
fn the_same_code_has_a_name_per_protocol() {
    let code = SCIMessageType(0x0001);
    assert_eq!(code.try_as_scip_message_type(), Ok("ChangeLocation"));
    assert_eq!(code.try_as_scils_message_type(), Ok("ShowSignalAspect"));
    assert_eq!(code.try_as_scitds_message_type(), Ok("FC"));
    assert_eq!(code.try_as_sci_message_type(), Err(SciError::UnknownMessageType(1)));
    assert_eq!(SCIMessageType(0x000B).try_as_scip_message_type(), Ok("LocationStatus"));
    assert_eq!(SCIMessageType(0x000B).try_as_scitds_message_type(), Ok("TdpStatus"));
    assert_eq!(
        SCIMessageType(0x000B).try_as_scils_message_type(),
        Err(SciError::UnknownMessageType(0x000B))
    );
}

#[test]
fn shared_codes_have_their_names_everywhere() {
    let names = [
        (0x0024, "VersionRequest"),
        (0x0025, "VersionResponse"),
        (0x0021, "StatusRequest"),
        (0x0022, "StatusBegin"),
        (0x0023, "StatusFinish"),
        (0x0027, "Close"),
        (0x0028, "ReleaseForMaintenance"),
        (0x0029, "Available"),
        (0x002A, "NotAvailable"),
        (0x002B, "Reset"),
        (0x000C, "Timeout"),
    ];
    for (code, name) in names {
        let t = SCIMessageType(code);
        assert_eq!(t.try_as_sci_message_type(), Ok(name));
        assert_eq!(t.try_as_scip_message_type(), Ok(name));
        assert_eq!(t.try_as_scils_message_type(), Ok(name));
        assert_eq!(t.try_as_scitds_message_type(), Ok(name));
        assert_eq!(SCIMessageType::try_as_sci_message_type_from(code), Ok(t));
        assert_eq!(SCIMessageType::try_as_scip_message_type_from(code), Ok(t));
        assert_eq!(SCIMessageType::try_as_scils_message_type_from(code), Ok(t));
        assert_eq!(SCIMessageType::try_as_scitds_message_type_from(code), Ok(t));
    }
    assert_eq!(
        SCIMessageType::try_as_sci_message_type_from(0x0026),
        Err(SciError::UnknownMessageType(0x0026))
    );
    assert_eq!(
        SCIMessageType::try_as_scitds_message_type_from(0x0004),
        Err(SciError::UnknownMessageType(0x0004))
    );
    assert_eq!(SCIMessageType::try_as_scils_message_type_from(0x0004), Ok(SCIMessageType(4)));
    assert_eq!(SCIMessageType::try_as_scip_message_type_from(0x000B), Ok(SCIMessageType(0xB)));
}

#[test]
fn message_type_constructors_give_their_codes() {
    assert_eq!(SCIMessageType::pdi_version_check().value(), 0x0024);
    assert_eq!(SCIMessageType::sci_version_request(), SCIMessageType::pdi_version_check());
    assert_eq!(SCIMessageType::sci_version_response().value(), 0x0025);
    assert_eq!(SCIMessageType::sci_status_request().value(), 0x0021);
    assert_eq!(SCIMessageType::sci_status_begin().value(), 0x0022);
    assert_eq!(SCIMessageType::sci_status_finish().value(), 0x0023);
    assert_eq!(SCIMessageType::sci_timeout().value(), 0x000C);
    assert_eq!(SCIMessageType::scip_change_location().value(), 0x0001);
    assert_eq!(SCIMessageType::scip_location_status().value(), 0x000B);
    assert_eq!(SCIMessageType::scils_show_signal_aspect().value(), 0x0001);
    assert_eq!(SCIMessageType::scils_change_brightness().value(), 0x0002);
    assert_eq!(SCIMessageType::scils_signal_aspect_status().value(), 0x0003);
    assert_eq!(SCIMessageType::scils_brightness_status().value(), 0x0004);
    assert_eq!(SCIMessageType::scitds_tvps_occupancy_status().value(), 0x0007);
}

#[test]
fn protocol_type_codes() {
    let codes = [
        (ProtocolType::SCIProtocolAIS, 0x01),
        (ProtocolType::SCIProtocolTDS, 0x20),
        (ProtocolType::SCIProtocolLS, 0x30),
        (ProtocolType::SCIProtocolP, 0x40),
        (ProtocolType::SCIProtocolRBC, 0x50),
        (ProtocolType::SCIProtocolLX, 0x60),
        (ProtocolType::SCIProtocolTCS, 0x70),
        (ProtocolType::SCIProtocolGIO, 0x90),
        (ProtocolType::SCIProtocolELX, 0xC0),
    ];
    for (protocol, code) in codes {
        assert_eq!(protocol.code(), code);
        assert_eq!(ProtocolType::try_from(code), Ok(protocol));
    }
}

#[test]
fn version_check_result_codes() {
    assert_eq!(SCIVersionCheckResult::try_from(0), Ok(SCIVersionCheckResult::NotAllowedToUse));
    assert_eq!(SCIVersionCheckResult::try_from(1), Ok(SCIVersionCheckResult::VersionsAreNotEqual));
    assert_eq!(SCIVersionCheckResult::try_from(2), Ok(SCIVersionCheckResult::VersionsAreEqual));
    assert_eq!(
        SCIVersionCheckResult::try_from(3),
        Err(SciError::UnknownVersionCheckResult(3))
    );
}

#[test]
fn close_reason_codes() {
    assert_eq!(SCICloseReason::try_from(1), Ok(SCICloseReason::ProtocolError));
    assert_eq!(SCICloseReason::try_from(7), Ok(SCICloseReason::ChecksumMismatch));
    assert_eq!(SCICloseReason::NormalClose.code(), 4);
    assert_eq!(SCICloseReason::try_from(0), Err(SciError::UnknownCloseReason(0)));
    assert_eq!(SCICloseReason::try_from(8), Err(SciError::UnknownCloseReason(8)));
}

#[test]
fn shared_telegrams_carry_their_payloads() {
    let t = SCITelegram::version_check(ProtocolType::SCIProtocolP, "a", "b", SCI_VERSION);
    assert_eq!(t.message_type, SCIMessageType::pdi_version_check());
    assert_eq!(t.payload.as_slice(), &[0x01][..]);
    let t = SCITelegram::version_request(ProtocolType::SCIProtocolP, "a", "b", 7);
    assert_eq!(t.message_type.value(), 0x0024);
    assert_eq!(t.payload.as_slice(), &[7][..]);
    let t = SCITelegram::version_response(
        ProtocolType::SCIProtocolLS,
        "a",
        "b",
        1,
        SCIVersionCheckResult::VersionsAreEqual,
        &[0xAB, 0xCD],
    );
    assert_eq!(t.message_type.value(), 0x0025);
    assert_eq!(t.payload.as_slice(), &[2, 1, 2, 0xAB, 0xCD][..]);
    let t = SCITelegram::close(ProtocolType::SCIProtocolTDS, "a", "b", SCICloseReason::Timeout);
    assert_eq!(t.message_type.value(), 0x0027);
    assert_eq!(t.payload.as_slice(), &[6][..]);
    assert_eq!(t.sender, "a");
    assert_eq!(t.receiver, "b");
    for (t, code) in [
        (SCITelegram::initialisation_request(ProtocolType::SCIProtocolP, "a", "b"), 0x0021),
        (SCITelegram::initialisation_response(ProtocolType::SCIProtocolP, "a", "b"), 0x0022),
        (SCITelegram::initialisation_completed(ProtocolType::SCIProtocolP, "a", "b"), 0x0023),
        (SCITelegram::status_request(ProtocolType::SCIProtocolP, "a", "b"), 0x0021),
        (SCITelegram::status_begin(ProtocolType::SCIProtocolP, "a", "b"), 0x0022),
        (SCITelegram::status_finish(ProtocolType::SCIProtocolP, "a", "b"), 0x0023),
        (SCITelegram::release_for_maintenance(ProtocolType::SCIProtocolP, "a", "b"), 0x0028),
        (SCITelegram::timeout(ProtocolType::SCIProtocolP, "a", "b"), 0x000C),
    ] {
        assert_eq!(t.message_type.value(), code);
        assert_eq!(t.payload.used, 0);
        assert_eq!(t.encode().len(), 43);
    }
}

#[test]
fn payload_counts_its_used_bytes_only() {
    let p = SCIPayload::from_slice(&[1, 2, 3]);
    assert_eq!(p.used, 3);
    assert_eq!(p.len(), 3);
    assert_eq!(p.as_slice(), &[1, 2, 3][..]);
    assert!(p.data[3..].iter().all(|b| *b == 0));
    let d = SCIPayload::default();
    assert_eq!(d.len(), 0);
    let over = SCIPayload { data: [7; 85], used: 1000 };
    assert_eq!(over.len(), 85);
    assert_eq!(over.as_slice().len(), 85);
}

#[test]
fn point_locations() {
    assert_eq!(
        SCIPointTargetLocation::try_from(1),
        Ok(SCIPointTargetLocation::PointLocationChangeToRight)
    );
    assert_eq!(
        SCIPointTargetLocation::try_from(2),
        Ok(SCIPointTargetLocation::PointLocationChangeToLeft)
    );
    assert_eq!(
        SCIPointTargetLocation::try_from(3),
        Err(SciError::P(SciPError::UnknownTargetLocation(3)))
    );
    assert_eq!(SCIPointLocation::try_from(1), Ok(SCIPointLocation::PointLocationRight));
    assert_eq!(SCIPointLocation::try_from(2), Ok(SCIPointLocation::PointLocationLeft));
    assert_eq!(SCIPointLocation::try_from(3), Ok(SCIPointLocation::PointNoTargetLocation));
    assert_eq!(SCIPointLocation::try_from(4), Ok(SCIPointLocation::PointBumped));
    assert_eq!(SCIPointLocation::try_from(5), Err(SciError::P(SciPError::UnknownLocation(5))));
    let t = SCITelegram::change_location("a", "b", SCIPointTargetLocation::PointLocationChangeToRight);
    assert_eq!(t.payload.as_slice(), &[0x01][..]);
    let t = SCITelegram::location_status("a", "b", SCIPointLocation::PointNoTargetLocation);
    assert_eq!(t.payload.as_slice(), &[0x03][..]);
    assert_eq!(t.message_type.value(), 0x000B);
}

fn aspect() -> SCILSSignalAspect {
    SCILSSignalAspect::new(
        SCILSMain::Ks1,
        SCILSAdditional::Zs7,
        SCILSZs3::Index8,
        SCILSZs3::Off,
        SCILSZs2::LetterZ,
        SCILSZs2::Off,
        SCILSDepreciationInformation::Type2,
        SCILSDrivewayInformation::Way3,
        SCILSDrivewayInformation::NoInformation,
        SCILSDarkSwitching::Dark,
        [1, 2, 3, 4, 5, 6, 7, 8, 9],
    )
}

#[test]
fn signal_aspect_takes_eighteen_bytes() {
    let bytes = aspect().to_bytes();
    assert_eq!(
        bytes,
        vec![0x04, 0x02, 0x08, 0xFF, 0x1A, 0xFF, 0x02, 0xF3, 0xFF, 1, 2, 3, 4, 5, 6, 7, 8, 9]
    );
    assert_eq!(aspect().to_payload().as_slice(), &bytes[..]);
}

#[test]
fn signal_aspect_round_trips() {
    let a = aspect();
    let b = SCILSSignalAspect::try_from(&a.to_bytes()).unwrap();
    assert_eq!(b.main(), SCILSMain::Ks1);
    assert_eq!(b.additional(), SCILSAdditional::Zs7);
    assert_eq!(b.zs3(), SCILSZs3::Index8);
    assert_eq!(b.zs3v(), SCILSZs3::Off);
    assert_eq!(b.zs2(), SCILSZs2::LetterZ);
    assert_eq!(b.zs2v(), SCILSZs2::Off);
    assert_eq!(b.depreciation_information(), SCILSDepreciationInformation::Type2);
    assert_eq!(b.upstream_driveway_information(), SCILSDrivewayInformation::Way3);
    assert_eq!(b.downstream_driveway_information(), SCILSDrivewayInformation::NoInformation);
    assert_eq!(b.dark_switching(), SCILSDarkSwitching::Dark);
    assert_eq!(b.nationally_specified_information(), &[1, 2, 3, 4, 5, 6, 7, 8, 9][..]);
}

#[test]
fn signal_aspect_faults() {
    let good = aspect().to_bytes();
    assert_eq!(SCILSSignalAspect::try_from(&good[..17]).unwrap_err(), SciError::Malformed);
    let cases: [(usize, u8, SciError); 9] = [
        (0, 0x0B, SciError::Ls(SciLsError::InvalidMainSignalAspect(0x0B))),
        (1, 0x06, SciError::Ls(SciLsError::InvalidAdditionalSignalAspect(0x06))),
        (2, 0x10, SciError::Ls(SciLsError::InvalidZs3Aspect(0x10))),
        (3, 0x00, SciError::Ls(SciLsError::InvalidZs3Aspect(0x00))),
        (4, 0x1B, SciError::Ls(SciLsError::InvalidZs2Aspect(0x1B))),
        (6, 0x04, SciError::Ls(SciLsError::InvalidDepreciationInformation(0x04))),
        (7, 0x51, SciError::Ls(SciLsError::InvalidDrivewayInformation(0x05))),
        (7, 0x10, SciError::Ls(SciLsError::InvalidDrivewayInformation(0x00))),
        (8, 0x02, SciError::Ls(SciLsError::InvalidDarkSwitching(0x02))),
    ];
    for (at, value, error) in cases {
        let mut bytes = good.clone();
        bytes[at] = value;
        assert_eq!(SCILSSignalAspect::try_from(&bytes).unwrap_err(), error);
    }
}

#[test]
fn light_signal_defaults_and_codes() {
    assert_eq!(SCILSMain::default(), SCILSMain::Off);
    assert_eq!(SCILSAdditional::default(), SCILSAdditional::Off);
    assert_eq!(SCILSZs3::default(), SCILSZs3::Off);
    assert_eq!(SCILSZs2::default(), SCILSZs2::Off);
    assert_eq!(SCILSDepreciationInformation::default(), SCILSDepreciationInformation::NoInformation);
    assert_eq!(SCILSDrivewayInformation::default(), SCILSDrivewayInformation::NoInformation);
    assert_eq!(SCILSDarkSwitching::default(), SCILSDarkSwitching::Show);
    assert_eq!(SCILSMain::Hp0Hv.code(), 0xA0);
    assert_eq!(SCILSMain::try_from(0xB2), Ok(SCILSMain::Vr2));
    assert_eq!(SCILSZs2::try_from(0x10), Ok(SCILSZs2::LetterP));
    assert_eq!(SCILSDrivewayInformation::NoInformation.code(), 0x0F);
    assert_eq!(SCILSDrivewayInformation::try_from(0x0F), Ok(SCILSDrivewayInformation::NoInformation));
    assert_eq!(SCILSDrivewayInformation::try_from(0xFF), Ok(SCILSDrivewayInformation::NoInformation));
    assert_eq!(SCILSBrightness::try_from(0xFF), Ok(SCILSBrightness::Undefined));
    assert_eq!(
        SCILSBrightness::try_from(0x03),
        Err(SciError::Ls(SciLsError::InvalidBrightness(3)))
    );
}

#[test]
fn light_signal_telegrams() {
    let t = SCITelegram::scils_show_signal_aspect("a", "b", aspect());
    assert_eq!(t.protocol_type, ProtocolType::SCIProtocolLS);
    assert_eq!(t.message_type.value(), 0x0001);
    assert_eq!(t.payload.used, 18);
    assert_eq!(t.payload.as_slice(), &aspect().to_bytes()[..]);
    let t = SCITelegram::scils_signal_aspect_status("a", "b", aspect());
    assert_eq!(t.message_type.value(), 0x0003);
    assert_eq!(t.payload.used, 18);
    let t = SCITelegram::scils_change_brightness("a", "b", SCILSBrightness::Night);
    assert_eq!(t.message_type.value(), 0x0002);
    assert_eq!(t.payload.as_slice(), &[0x02][..]);
    let t = SCITelegram::scils_brightness_status("a", "b", SCILSBrightness::Undefined);
    assert_eq!(t.message_type.value(), 0x0004);
    assert_eq!(t.payload.as_slice(), &[0xFF][..]);
    // the aspect comes back out of the telegram
    let sent = SCITelegram::scils_show_signal_aspect("a", "b", aspect());
    let back = SCITelegram::try_from(&sent.encode()).unwrap();
    let a = SCILSSignalAspect::try_from(back.payload.as_slice()).unwrap();
    assert_eq!(a.main(), SCILSMain::Ks1);
}

#[test]
fn occupancy_status_telegram_has_seven_bytes() {
    let t = SCITelegram::tvps_occupancy_status(
        "a",
        "b",
        OccupancyStatus::Occupied,
        true,
        0x0102,
        POMStatus::Okay,
        DisturbanceStatus::Technical,
        ChangeTrigger::NotApplicable,
    );
    assert_eq!(t.payload.as_slice(), &[0x02, 0x01, 0x01, 0x02, 0x01, 0x02, 0xFF][..]);
    let t = SCITelegram::tvps_occupancy_status(
        "a",
        "b",
        OccupancyStatus::Vacant,
        false,
        -1,
        POMStatus::NotApplicable,
        DisturbanceStatus::Operational,
        ChangeTrigger::PassingDetected,
    );
    assert_eq!(t.payload.as_slice(), &[0x01, 0x02, 0xFF, 0xFF, 0xFF, 0x01, 0x01][..]);
    assert_eq!(t.message_type.value(), 0x0007);
}

#[test]
fn occupancy_status_payload_round_trips() {
    let p = OccupancyStatusPayload {
        occupancy_status: OccupancyStatus::WaitingForAck,
        can_be_forced_to_clear: true,
        filling_level: 0xABCD,
        pom_status: POMStatus::NotOk,
        disturbance_status: DisturbanceStatus::NotApplicable,
        change_trigger: ChangeTrigger::InternalTrigger,
    };
    let payload = p.to_payload();
    assert_eq!(payload.as_slice(), &[0x05, 0x01, 0xAB, 0xCD, 0x02, 0xFF, 0x06][..]);
    assert_eq!(OccupancyStatusPayload::try_from(payload), Ok(p));
    // what the telegram constructor writes is read back alike
    let t = SCITelegram::tvps_occupancy_status(
        "a",
        "b",
        OccupancyStatus::WaitingForAck,
        true,
        0x0bcd,
        POMStatus::NotOk,
        DisturbanceStatus::NotApplicable,
        ChangeTrigger::InternalTrigger,
    );
    let q = OccupancyStatusPayload::try_from(t.payload).unwrap();
    assert!(q.can_be_forced_to_clear);
    assert_eq!(q.filling_level, 0x0bcd);
}

#[test]
fn occupancy_status_payload_faults() {
    assert_eq!(
        OccupancyStatusPayload::try_from(SCIPayload::from_slice(&[1, 1, 0, 0, 1, 1])),
        Err(SciError::Tds(SciTdsError::BadPayloadLength(6)))
    );
    let cases: [([u8; 7], SciTdsError); 5] = [
        ([7, 1, 0, 0, 1, 1, 1], SciTdsError::UnknownOccupancyStatus(7)),
        ([1, 3, 0, 0, 1, 1, 1], SciTdsError::UnknownForceClearFlag(3)),
        ([1, 1, 0, 0, 3, 1, 1], SciTdsError::UnknownPOMStatus(3)),
        ([1, 1, 0, 0, 1, 3, 1], SciTdsError::UnknownDisturbanceStatus(3)),
        ([1, 1, 0, 0, 1, 1, 7], SciTdsError::UnknownChangeTrigger(7)),
    ];
    for (bytes, error) in cases {
        assert_eq!(
            OccupancyStatusPayload::try_from(SCIPayload::from_slice(&bytes)),
            Err(SciError::Tds(error))
        );
    }
}

#[test]
fn short_occupancy_status() {
    let p = NeuProOccupancyStatusPayload::try_from(SCIPayload::from_slice(&[2, 1, 0x12, 0x34, 0, 0, 0])).unwrap();
    assert_eq!(p.occupancy_status, OccupancyStatus::Occupied);
    assert!(p.can_be_forced_to_clear);
    assert_eq!(p.filling_level, 0x1234);
    let full = OccupancyStatusPayload::from(p);
    assert_eq!(full.pom_status, POMStatus::NotApplicable);
    assert_eq!(full.disturbance_status, DisturbanceStatus::NotApplicable);
    assert_eq!(full.change_trigger, ChangeTrigger::NotApplicable);
    assert_eq!(NeuProOccupancyStatusPayload::from(full), p);
    assert_eq!(
        NeuProOccupancyStatusPayload::try_from(SCIPayload::from_slice(&[2, 1])),
        Err(SciError::Tds(SciTdsError::UnknownOccupancyStatus(0)))
    );
    assert_eq!(
        NeuProOccupancyStatusPayload::try_from(SCIPayload::from_slice(&[2, 2, 0, 0, 0, 0, 0])),
        Err(SciError::Tds(SciTdsError::UnknownForceClearFlag(2)))
    );
    assert_eq!(
        NeuProOccupancyStatusPayload::try_from(SCIPayload::from_slice(&[9, 0, 0, 0, 0, 0, 0])),
        Err(SciError::Tds(SciTdsError::UnknownOccupancyStatus(9)))
    );
}

#[test]
fn train_detection_telegrams() {
    assert_eq!(SCITelegram::fc("a", "b", FCMode::PA).payload.as_slice(), &[0x03][..]);
    assert_eq!(SCITelegram::fc("a", "b", FCMode::Ack).message_type.value(), 0x0001);
    let t = SCITelegram::command_rejected("a", "b", RejectionReason::Technical);
    assert_eq!((t.message_type.value(), t.payload.as_slice()), (0x0006, &[0x02][..]));
    let t = SCITelegram::tvps_fc_p_failed("a", "b", FCPFailureReason::Timeout);
    assert_eq!((t.message_type.value(), t.payload.as_slice()), (0x0010, &[0x02][..]));
    let t = SCITelegram::tvps_fc_p_a_failed("a", "b", FCPFailureReason::ProcessCancelled);
    assert_eq!((t.message_type.value(), t.payload.as_slice()), (0x0011, &[0x06][..]));
    let t = SCITelegram::tdp_status("a", "b", StateOfPassing::Passed, DirectionOfPassing::AgainstReference);
    assert_eq!((t.message_type.value(), t.payload.as_slice()), (0x000B, &[0x02, 0x02][..]));
    assert_eq!(SCITelegram::update_filling_level("a", "b").message_type.value(), 0x0002);
    assert_eq!(SCITelegram::drfc("a", "b").message_type.value(), 0x0003);
    assert_eq!(SCITelegram::cancel("a", "b").message_type.value(), 0x0008);
    assert_eq!(SCITelegram::cancel("a", "b").protocol_type, ProtocolType::SCIProtocolTDS);
    assert_eq!(SCITelegram::cancel("a", "b").payload.used, 0);
}

#[test]
fn train_detection_codes() {
    assert_eq!(FCMode::try_from(6), Err(SciError::Tds(SciTdsError::UnknownFcMode(6))));
    assert_eq!(
        RejectionReason::try_from(3),
        Err(SciError::Tds(SciTdsError::UnknownRejectionReason(3)))
    );
    assert_eq!(
        FCPFailureReason::try_from(0),
        Err(SciError::Tds(SciTdsError::UnknownFCPFailureReason(0)))
    );
    assert_eq!(
        StateOfPassing::try_from(4),
        Err(SciError::Tds(SciTdsError::UnknownStateOfPassing(4)))
    );
    assert_eq!(
        DirectionOfPassing::try_from(4),
        Err(SciError::Tds(SciTdsError::UnknownDirectionOfPassing(4)))
    );
    assert_eq!(POMStatus::try_from(1), Ok(POMStatus::Okay));
    assert_eq!(ChangeTrigger::try_from(0xFF), Ok(ChangeTrigger::NotApplicable));
    assert_eq!(OccupancyStatus::SweepingTrainDetected.code(), 6);
}

#[test]
fn protocol_faults_are_sci_errors() {
    assert_eq!(
        SciError::from(SciLsError::InvalidZs2Aspect(1)),
        SciError::Ls(SciLsError::InvalidZs2Aspect(1))
    );
    assert_eq!(
        SciError::from(SciPError::UnknownLocation(9)),
        SciError::P(SciPError::UnknownLocation(9))
    );
    assert_eq!(
        SciError::from(SciTdsError::BadPayloadLength(3)),
        SciError::Tds(SciTdsError::BadPayloadLength(3))
    );
    assert_eq!(u16::from(SCIMessageType::pdi_close()), 0x0027);
}

#[test]
fn sci_errors_become_malformed() {
    assert_eq!(RastaError::from(SciError::UnknownProtocol(3)), RastaError::Malformed);
    assert_eq!(
        RastaError::from(SciError::Ls(SciLsError::InvalidBrightness(3))),
        RastaError::Malformed
    );
}

#[test]
fn names_beyond_ascii_keep_their_bytes() {
    let t = SCITelegram::timeout(ProtocolType::SCIProtocolP, "Zürich", "Köln");
    let bytes = t.encode();
    assert_eq!(&bytes[3..10], "Zürich".as_bytes());
    assert!(bytes[10..23].iter().all(|b| *b == 0x5F));
    let back = SCITelegram::try_from(&bytes).unwrap();
    assert_eq!(back.sender, "Zürich_____________");
    assert_eq!(back.receiver, "Köln_______________");
    assert_eq!(back.encode(), bytes);
}

#[test]
fn a_character_cut_in_two_is_replaced() {
    // the twentieth byte is the first half of a two-byte character
    let name = "abcdefghijklmnopqrsé";
    assert_eq!(name.len(), 21);
    let t = SCITelegram::timeout(ProtocolType::SCIProtocolP, name, "b");
    let bytes = t.encode();
    assert_eq!(&bytes[3..23], &name.as_bytes()[..20]);
    let back = SCITelegram::try_from(&bytes).unwrap();
    assert_eq!(back.sender, "abcdefghijklmnopqrs\u{FFFD}");
}
