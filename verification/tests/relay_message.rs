use remote_signing::error::{ErrorCategory, ErrorKind};
use remote_signing::public_key::PeerPublicKey;
use remote_signing::relay_message::{find_member, MessageKind, RelayMessage};

fn initiator_spki() -> Vec<u8> {
    vec![
        0x30, 0x2a, 0x30, 0x05, 0x06, 0x03, 0x2b, 0x65, 0x70, 0x03, 0x21, 0x00,
        0x12, 0x04, 0x0a, 0x40, 0xb8, 0x61, 0x7e, 0xcd, 0x23, 0x33, 0x5f, 0xbf,
        0x41, 0xa9, 0xfa, 0xa4, 0x82, 0x65, 0x49, 0xb4, 0xbc, 0xe0, 0x1b, 0x22,
        0x80, 0x9d, 0xfe, 0xfd, 0xbb, 0x29, 0x71, 0x61,
    ]
}

fn joiner_spki() -> Vec<u8> {
    vec![
        0x30, 0x59, 0x30, 0x13, 0x06, 0x07, 0x2a, 0x86, 0x48, 0xce, 0x3d, 0x02,
        0x01, 0x06, 0x08, 0x2a, 0x86, 0x48, 0xce, 0x3d, 0x03, 0x01, 0x07, 0x03,
        0x42, 0x00, 0x04, 0xf9, 0xeb, 0xe4, 0x64, 0x14, 0x7c, 0xc1, 0x02, 0xd9,
        0x23, 0x24, 0xd0, 0x99, 0xd9, 0x27, 0xc1, 0xa5, 0x0e, 0x42, 0xd5, 0x7a,
        0x08, 0xa1, 0x16, 0xff, 0xec, 0x0a, 0x29, 0x81, 0x9d, 0x8c, 0x65, 0x70,
        0xba, 0xf7, 0xd1, 0x28, 0x88, 0x90, 0x2a, 0x6a, 0x0c, 0x1d, 0x67, 0xad,
        0xd1, 0x03, 0x12, 0x3c, 0x85, 0x9a, 0xb6, 0x9b, 0xf8, 0xe9, 0x43, 0x1c,
        0x93, 0x84, 0x93, 0x0d, 0x4b, 0x7e, 0xee,
    ]
}

const JOINER_KEY_TEXT: &str = "MFkwEwYHKoZIzj0CAQYIKoZIzj0DAQcDQgAE+evkZBR8wQLZIyTQmdknwaUOQtV6CKEW/+wKKYGdjGVwuvfRKIiQKmoMHWet0QMSPIWatpv46UMck4STDUt+7g==";

fn joiner_key() -> PeerPublicKey {
    PeerPublicKey::from_spki_der(joiner_spki()).unwrap()
}

fn same(left: &RelayMessage, right: &RelayMessage) -> bool {
    match (left, right) {
        (RelayMessage::CreateSession, RelayMessage::CreateSession) => true,
        (
            RelayMessage::JoinSession { public_key: a },
            RelayMessage::JoinSession { public_key: b },
        ) => a.as_der() == b.as_der(),
        (
            RelayMessage::PeerJoined { public_key: a },
            RelayMessage::PeerJoined { public_key: b },
        ) => a.as_der() == b.as_der(),
        (RelayMessage::RelayPayload { data: a }, RelayMessage::RelayPayload { data: b }) => a == b,
        (RelayMessage::Error { message: a }, RelayMessage::Error { message: b }) => a == b,
        _ => false,
    }
}

fn members(pairs: &[(&str, &str)]) -> Vec<(String, String)> {
    pairs.iter().map(|(name, value)| (name.to_string(), value.to_string())).collect()
}

#[test]
fn kinds_have_their_wire_names() {
    assert_eq!(MessageKind::CreateSession.wire_name(), "create-session");
    assert_eq!(MessageKind::JoinSession.wire_name(), "join-session");
    assert_eq!(MessageKind::PeerJoined.wire_name(), "peer-joined");
    assert_eq!(MessageKind::RelayPayload.wire_name(), "relay-payload");
    assert_eq!(MessageKind::Error.wire_name(), "error");
}

#[test]
fn wire_names_name_their_kinds() {
    for kind in [
        MessageKind::CreateSession,
        MessageKind::JoinSession,
        MessageKind::PeerJoined,
        MessageKind::RelayPayload,
        MessageKind::Error,
    ] {
        assert_eq!(MessageKind::from_wire_name(kind.wire_name()), Some(kind));
    }
    assert_eq!(MessageKind::from_wire_name("close-session"), None);
    assert_eq!(MessageKind::from_wire_name(""), None);
    assert_eq!(MessageKind::from_wire_name("Error"), None);
}

#[test]
fn kinds_carry_their_members() {
    assert_eq!(MessageKind::CreateSession.carried_member(), None);
    assert_eq!(MessageKind::JoinSession.carried_member(), Some("public_key"));
    assert_eq!(MessageKind::PeerJoined.carried_member(), Some("public_key"));
    assert_eq!(MessageKind::RelayPayload.carried_member(), Some("data"));
    assert_eq!(MessageKind::Error.carried_member(), Some("message"));
}

#[test]
fn messages_know_their_kind() {
    assert_eq!(RelayMessage::CreateSession.kind(), MessageKind::CreateSession);
    assert_eq!(
        RelayMessage::JoinSession { public_key: joiner_key() }.kind(),
        MessageKind::JoinSession
    );
    assert_eq!(
        RelayMessage::PeerJoined { public_key: joiner_key() }.kind(),
        MessageKind::PeerJoined
    );
    assert_eq!(RelayMessage::RelayPayload { data: vec![] }.kind(), MessageKind::RelayPayload);
    assert_eq!(RelayMessage::Error { message: String::new() }.kind(), MessageKind::Error);
}

#[test]
fn create_session_frame() {
    let frame = RelayMessage::CreateSession.encode().unwrap();
    assert_eq!(String::from_utf8(frame).unwrap(), "{\"type\":\"create-session\"}");
}

#[test]
fn join_session_frame() {
    let frame = RelayMessage::JoinSession { public_key: joiner_key() }.encode().unwrap();
    assert_eq!(
        String::from_utf8(frame).unwrap(),
        format!("{{\"public_key\":\"{}\",\"type\":\"join-session\"}}", JOINER_KEY_TEXT)
    );
}

#[test]
fn peer_joined_frame() {
    let frame = RelayMessage::PeerJoined { public_key: joiner_key() }.encode().unwrap();
    assert_eq!(
        String::from_utf8(frame).unwrap(),
        format!("{{\"public_key\":\"{}\",\"type\":\"peer-joined\"}}", JOINER_KEY_TEXT)
    );
}

#[test]
fn relay_payload_frame() {
    let frame = RelayMessage::RelayPayload { data: b"sign-me".to_vec() }.encode().unwrap();
    assert_eq!(
        String::from_utf8(frame).unwrap(),
        "{\"data\":\"c2lnbi1tZQ==\",\"type\":\"relay-payload\"}"
    );
}

#[test]
fn error_frame() {
    let frame = RelayMessage::Error { message: "no such \"session\"".to_string() }.encode().unwrap();
    assert_eq!(
        String::from_utf8(frame).unwrap(),
        "{\"message\":\"no such \\\"session\\\"\",\"type\":\"error\"}"
    );
}

#[test]
fn members_list_the_type_first() {
    let listed = RelayMessage::RelayPayload { data: vec![0xff] }.to_members();
    assert_eq!(listed, members(&[("type", "relay-payload"), ("data", "/w==")]));
    let listed = RelayMessage::CreateSession.to_members();
    assert_eq!(listed, members(&[("type", "create-session")]));
}

#[test]
fn every_kind_of_message_round_trips() {
    let messages = vec![
        RelayMessage::CreateSession,
        RelayMessage::JoinSession { public_key: joiner_key() },
        RelayMessage::PeerJoined {
            public_key: PeerPublicKey::from_spki_der(initiator_spki()).unwrap(),
        },
        RelayMessage::RelayPayload { data: vec![0, 1, 2, 253, 254, 255] },
        RelayMessage::RelayPayload { data: vec![] },
        RelayMessage::Error { message: "caf\u{e9} \n \"quoted\"".to_string() },
        RelayMessage::Error { message: String::new() },
    ];
    for message in &messages {
        let frame = message.encode().unwrap();
        let back = RelayMessage::decode(&frame).unwrap();
        assert!(same(&back, message));
        let back = RelayMessage::from_members(&message.to_members()).unwrap();
        assert!(same(&back, message));
    }
}

#[test]
fn decode_reads_frames_in_any_member_order() {
    let message = RelayMessage::decode(b" { \"type\" : \"relay-payload\", \"data\" : \"c2lnbi1tZQ==\" } ")
        .unwrap();
    assert!(same(&message, &RelayMessage::RelayPayload { data: b"sign-me".to_vec() }));
    let message = RelayMessage::decode(b"{\"type\":\"error\",\"message\":\"gone\"}").unwrap();
    assert!(same(&message, &RelayMessage::Error { message: "gone".to_string() }));
    let message = RelayMessage::decode(b"{\"type\":\"create-session\"}").unwrap();
    assert!(same(&message, &RelayMessage::CreateSession));
}

#[test]
fn frame_that_is_no_json_object_of_strings_is_a_json_error() {
    for frame in [
        &b""[..],
        b"not json",
        b"[\"type\",\"error\"]",
        b"{\"type\":\"relay-payload\",\"data\":5}",
        b"{\"type\":\"create-session\"",
        b"{\"type\":\"create-session\"} trailing",
        b"\"create-session\"",
    ] {
        let error = RelayMessage::decode(frame).unwrap_err();
        assert_eq!(error.kind(), ErrorKind::SerdeJson);
        assert_eq!(error.kind().category(), ErrorCategory::Encoding);
    }
}

#[test]
fn unknown_type_is_an_unexpected_message() {
    let error = RelayMessage::decode(b"{\"type\":\"close-session\"}").unwrap_err();
    assert_eq!(error.kind(), ErrorKind::ServerUnexpectedMessage);
    assert_eq!(error.kind().category(), ErrorCategory::RelayProtocol);
    assert_eq!(
        error.message(),
        "unexpected message received from relay server: close-session"
    );
}

#[test]
fn frame_without_type_is_an_unexpected_message() {
    let error = RelayMessage::decode(b"{}").unwrap_err();
    assert_eq!(error.kind(), ErrorKind::ServerUnexpectedMessage);
    assert_eq!(
        error.message(),
        "unexpected message received from relay server: message without a type"
    );
    let error = RelayMessage::decode(b"{\"data\":\"AA==\"}").unwrap_err();
    assert_eq!(error.kind(), ErrorKind::ServerUnexpectedMessage);
}

#[test]
fn frame_without_its_member_is_an_unexpected_message() {
    for frame in [
        &b"{\"type\":\"join-session\"}"[..],
        b"{\"type\":\"peer-joined\"}",
        b"{\"type\":\"relay-payload\"}",
        b"{\"type\":\"error\"}",
        b"{\"type\":\"relay-payload\",\"message\":\"AA==\"}",
        b"{\"type\":\"error\",\"data\":\"AA==\"}",
    ] {
        let error = RelayMessage::decode(frame).unwrap_err();
        assert_eq!(error.kind(), ErrorKind::ServerUnexpectedMessage);
    }
}

#[test]
fn frame_with_a_member_too_many_is_an_unexpected_message() {
    for frame in [
        &b"{\"type\":\"create-session\",\"data\":\"AA==\"}"[..],
        b"{\"type\":\"relay-payload\",\"data\":\"AA==\",\"message\":\"x\"}",
        b"{\"type\":\"error\",\"message\":\"x\",\"code\":\"7\"}",
    ] {
        let error = RelayMessage::decode(frame).unwrap_err();
        assert_eq!(error.kind(), ErrorKind::ServerUnexpectedMessage);
    }
}

#[test]
fn payload_that_is_not_base64_is_a_base64_error() {
    let error = RelayMessage::decode(b"{\"type\":\"relay-payload\",\"data\":\"c2lnbi1tZQ\"}")
        .unwrap_err();
    assert_eq!(error.kind(), ErrorKind::Base64);
    let error = RelayMessage::decode(b"{\"type\":\"peer-joined\",\"public_key\":\"?\"}").unwrap_err();
    assert_eq!(error.kind(), ErrorKind::Base64);
}

#[test]
fn key_that_is_no_spki_is_a_key_structure_error() {
    let error = RelayMessage::decode(b"{\"type\":\"peer-joined\",\"public_key\":\"AAEC\"}")
        .unwrap_err();
    assert_eq!(error.kind(), ErrorKind::Spki);
    let error = RelayMessage::decode(b"{\"type\":\"join-session\",\"public_key\":\"\"}").unwrap_err();
    assert_eq!(error.kind(), ErrorKind::Spki);
    assert_eq!(error.kind().category(), ErrorCategory::KeyStructure);
}

#[test]
fn carrying_builds_each_kind() {
    assert!(same(
        &RelayMessage::carrying(MessageKind::CreateSession, "ignored").unwrap(),
        &RelayMessage::CreateSession
    ));
    assert!(same(
        &RelayMessage::carrying(MessageKind::Error, "words").unwrap(),
        &RelayMessage::Error { message: "words".to_string() }
    ));
    assert!(same(
        &RelayMessage::carrying(MessageKind::RelayPayload, "AQI=").unwrap(),
        &RelayMessage::RelayPayload { data: vec![1, 2] }
    ));
    assert!(same(
        &RelayMessage::carrying(MessageKind::JoinSession, JOINER_KEY_TEXT).unwrap(),
        &RelayMessage::JoinSession { public_key: joiner_key() }
    ));
    assert!(same(
        &RelayMessage::carrying(MessageKind::PeerJoined, JOINER_KEY_TEXT).unwrap(),
        &RelayMessage::PeerJoined { public_key: joiner_key() }
    ));
}

#[test]
fn find_member_takes_the_last_of_a_name() {
    let listed = members(&[("a", "1"), ("b", "2"), ("a", "3")]);
    assert_eq!(find_member(&listed, "a"), Some(&"3".to_string()));
    assert_eq!(find_member(&listed, "b"), Some(&"2".to_string()));
    assert_eq!(find_member(&listed, "c"), None);
    assert_eq!(find_member(&Vec::new(), "a"), None);
}
