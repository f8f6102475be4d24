use enturion::net::WoWPacket;
use enturion::packet::{AuthCommand, AuthResult, LogonChallengeErrorResponse};

#[test]
fn command_tags_encode_to_their_wire_bytes() {
    assert_eq!(AuthCommand::AuthLogonChallenge.encode(), 0x00);
    assert_eq!(AuthCommand::AuthLogonProof.encode(), 0x01);
    assert_eq!(AuthCommand::RealmList.encode(), 0x10);
    assert_eq!(AuthCommand::XferCancel.encode(), 0x34);
}

#[test]
fn command_tags_decode_from_their_wire_bytes() {
    assert_eq!(AuthCommand::decode(0x00), Some(AuthCommand::AuthLogonChallenge));
    assert_eq!(AuthCommand::decode(0x10), Some(AuthCommand::RealmList));
    assert_eq!(AuthCommand::decode(0x11), None);
    assert_eq!(AuthCommand::decode(0xFF), None);
}

#[test]
fn result_tags_encode_to_their_wire_bytes() {
    assert_eq!(AuthResult::WowSuccess.encode(), 0x00);
    assert_eq!(AuthResult::WowFailBanned.encode(), 0x03);
    assert_eq!(AuthResult::WowFailConversionRequired.encode(), 0x20);
    assert_eq!(AuthResult::WowFailDisconnected.encode(), 0xFF);
}

#[test]
fn result_tags_decode_from_their_wire_bytes() {
    assert_eq!(AuthResult::decode(0x00), Some(AuthResult::WowSuccess));
    assert_eq!(AuthResult::decode(0xFF), Some(AuthResult::WowFailDisconnected));
    assert_eq!(AuthResult::decode(0x01), None);
    assert_eq!(AuthResult::decode(0x21), None);
}

#[test]
fn response_record_writes_three_little_endian_bytes() {
    let pkt = LogonChallengeErrorResponse::new(
        AuthCommand::AuthLogonChallenge,
        0,
        AuthResult::WowFailBanned,
    );
    assert_eq!(pkt.encode_to_vec(), vec![0x00u8, 0x00, 0x03]);

    let pkt = LogonChallengeErrorResponse::new(
        AuthCommand::RealmList,
        7,
        AuthResult::WowFailDisconnected,
    );
    assert_eq!(pkt.encode_to_vec(), vec![0x10u8, 0x07, 0xFF]);
}

#[test]
fn response_record_round_trips_through_its_wire_form() {
    let pkt = LogonChallengeErrorResponse::new(
        AuthCommand::AuthReconnectProof,
        0,
        AuthResult::WowFailSuspended,
    );
    let bytes = pkt.encode_to_vec();
    let back = LogonChallengeErrorResponse::decode(bytes.as_slice()).unwrap();
    assert_eq!(back, pkt);
}

#[test]
fn response_record_rejects_malformed_bytes() {
    assert!(LogonChallengeErrorResponse::decode(&[]).is_none());
    assert!(LogonChallengeErrorResponse::decode(&[0x00, 0x00]).is_none());
    assert!(LogonChallengeErrorResponse::decode(&[0x00, 0x00, 0x03, 0x00]).is_none());
    // A command byte that stands for no tag.
    assert!(LogonChallengeErrorResponse::decode(&[0x11, 0x00, 0x03]).is_none());
    // A result byte that stands for no tag.
    assert!(LogonChallengeErrorResponse::decode(&[0x00, 0x00, 0x01]).is_none());
}
