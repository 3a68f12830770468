use to_device_events::event_type::EventType;
use to_device_events::identifiers::UserId;
use to_device_events::to_device::raw;
use to_device_events::to_device::{
    AcceptAll, ContentError, DecodeError, Field, ToDevice, ToDeviceEvent,
};

const ALL_KINDS: [EventType; 10] = [
    EventType::RoomKey,
    EventType::RoomEncrypted,
    EventType::ForwardedRoomKey,
    EventType::RoomKeyRequest,
    EventType::KeyVerificationStart,
    EventType::KeyVerificationAccept,
    EventType::KeyVerificationKey,
    EventType::KeyVerificationMac,
    EventType::KeyVerificationCancel,
    EventType::KeyVerificationRequest,
];

fn json(text: &str) -> serde_json::Value {
    serde_json::from_str(text).expect("test payload is valid JSON")
}

fn decode(text: &str) -> Result<raw::ToDevice, DecodeError> {
    raw::ToDevice::decode(&json(text))
}

const ROOM_KEY_CONTENT: &str = r#"{"algorithm":"m.megolm.v1.aes-sha2","room_id":"!test:example.org","session_id":"SessId","session_key":"SessKey"}"#;

#[test]
fn room_key_payload_decodes_and_validates() {
    let text = format!(
        r#"{{"type":"m.room_key","sender":"@alice:example.org","content":{}}}"#,
        ROOM_KEY_CONTENT
    );
    let raw = decode(&text).expect("payload decodes");
    assert_eq!(raw.kind(), EventType::RoomKey);
    let event = ToDevice::try_from_raw(raw, &AcceptAll).expect("content validates");
    match event {
        ToDevice::RoomKey(ToDeviceEvent { sender, content }) => {
            assert_eq!(sender.as_str(), "@alice:example.org");
            assert_eq!(content, json(ROOM_KEY_CONTENT));
        }
        other => panic!("wrong variant: {:?}", other),
    }
}

#[test]
fn bogus_type_is_unknown_event_type() {
    let r = decode(r#"{"type":"m.bogus","sender":"@bob:example.org","content":{}}"#);
    assert_eq!(r.unwrap_err(), DecodeError::UnknownEventType("m.bogus".to_owned()));
}

#[test]
fn every_known_tag_decodes_to_its_kind() {
    for kind in ALL_KINDS.iter() {
        let text = format!(
            r#"{{"type":"{}","sender":"@carl:example.com","content":{{"n":1}}}}"#,
            kind.as_str()
        );
        let raw = decode(&text).expect("payload decodes");
        assert_eq!(raw.kind(), *kind);
        let event = ToDevice::try_from_raw(raw, &AcceptAll).expect("content validates");
        assert_eq!(event.kind(), *kind);
        let (_, envelope) = event.into_parts();
        assert_eq!(envelope.sender.as_str(), "@carl:example.com");
        assert_eq!(envelope.content, json(r#"{"n":1}"#));
    }
}

#[test]
fn tags_are_the_wire_names() {
    assert_eq!(EventType::RoomKey.as_str(), "m.room_key");
    assert_eq!(EventType::RoomEncrypted.as_str(), "m.room.encrypted");
    assert_eq!(EventType::KeyVerificationMac.as_str(), "m.key.verification.mac");
    assert_eq!(EventType::from_tag("m.key.verification.cancel"), Some(EventType::KeyVerificationCancel));
    assert_eq!(EventType::from_tag("m.room_key_request"), Some(EventType::RoomKeyRequest));
    assert_eq!(EventType::from_tag("m.room.message"), None);
    assert_eq!(EventType::from_tag(""), None);
}

#[test]
fn missing_type_is_missing_field_type() {
    let r = decode(r#"{"sender":"@bob:example.org","content":{}}"#);
    assert_eq!(r.unwrap_err(), DecodeError::MissingField(Field::Type));
}

#[test]
fn type_that_is_no_string_is_missing_field_type() {
    let r = decode(r#"{"type":7,"sender":"@bob:example.org","content":{}}"#);
    assert_eq!(r.unwrap_err(), DecodeError::MissingField(Field::Type));
}

#[test]
fn payload_that_is_no_object_is_missing_field_type() {
    assert_eq!(decode("[1,2]").unwrap_err(), DecodeError::MissingField(Field::Type));
}

#[test]
fn missing_sender_is_missing_field_sender() {
    let r = decode(r#"{"type":"m.room_key","content":{}}"#);
    assert_eq!(r.unwrap_err(), DecodeError::MissingField(Field::Sender));
}

#[test]
fn invalid_sender_is_missing_field_sender() {
    let r = decode(r#"{"type":"m.room_key","sender":"alice","content":{}}"#);
    assert_eq!(r.unwrap_err(), DecodeError::MissingField(Field::Sender));
}

#[test]
fn missing_content_is_missing_field_content() {
    let r = decode(r#"{"type":"m.room_key","sender":"@alice:example.org"}"#);
    assert_eq!(r.unwrap_err(), DecodeError::MissingField(Field::Content));
}

#[test]
fn content_that_is_no_object_is_missing_field_content() {
    let r = decode(r#"{"type":"m.room_key","sender":"@alice:example.org","content":"x"}"#);
    assert_eq!(r.unwrap_err(), DecodeError::MissingField(Field::Content));
}

#[test]
fn content_is_checked_before_sender() {
    let r = decode(r#"{"type":"m.room_key"}"#);
    assert_eq!(r.unwrap_err(), DecodeError::MissingField(Field::Content));
}

#[test]
fn unknown_type_is_reported_before_missing_members() {
    let r = decode(r#"{"type":"m.custom"}"#);
    assert_eq!(r.unwrap_err(), DecodeError::UnknownEventType("m.custom".to_owned()));
}

#[test]
fn extra_members_are_ignored() {
    let r = decode(
        r#"{"type":"m.room_key","sender":"@alice:example.org","content":{},"unsigned":{"age":3}}"#,
    );
    assert_eq!(r.expect("payload decodes").kind(), EventType::RoomKey);
}

#[test]
fn sender_is_held_in_canonical_form() {
    let raw = decode(r#"{"type":"m.room_key","sender":"@CARL:example.com:443","content":{}}"#)
        .expect("payload decodes");
    let (_, envelope) = raw.into_parts();
    assert_eq!(envelope.sender.as_str(), "@carl:example.com");
}

#[test]
fn user_id_parse_checks_and_canonicalizes() {
    assert_eq!(UserId::parse("@carl:example.com:5000").unwrap().as_str(), "@carl:example.com:5000");
    assert_eq!(UserId::parse("@Carl:Example.com").unwrap().as_str(), "@carl:example.com");
    assert!(UserId::parse("carl:example.com").is_none());
    assert!(UserId::parse("@carl").is_none());
    assert!(UserId::parse("@carl example:example.com").is_none());
}

#[test]
fn encode_then_decode_gives_the_event_back() {
    for kind in ALL_KINDS.iter() {
        let text = format!(
            r#"{{"type":"{}","sender":"@dana:example.net","content":{{"k":"v"}}}}"#,
            kind.as_str()
        );
        let event = ToDevice::try_from_raw(decode(&text).unwrap(), &AcceptAll).unwrap();
        let again = raw::ToDevice::decode(&event.clone().into_json()).expect("encoding decodes");
        let event_again = ToDevice::try_from_raw(again, &AcceptAll).unwrap();
        assert_eq!(event_again, event);
    }
}

#[test]
fn encoding_holds_the_three_members() {
    let raw = decode(r#"{"type":"m.room.encrypted","sender":"@eve:example.org","content":{"a":1}}"#).unwrap();
    let v = ToDevice::try_from_raw(raw, &AcceptAll).unwrap().into_json();
    assert_eq!(
        v,
        json(r#"{"type":"m.room.encrypted","sender":"@eve:example.org","content":{"a":1}}"#)
    );
}

#[test]
fn validating_twice_changes_nothing() {
    let raw = decode(r#"{"type":"m.key.verification.key","sender":"@fay:example.org","content":{"key":"abc"}}"#).unwrap();
    let once = ToDevice::try_from_raw(raw, &AcceptAll).unwrap();
    let twice = ToDevice::try_from_raw(once.clone().into_raw(), &AcceptAll).unwrap();
    assert_eq!(twice, once);
}

#[test]
fn field_keys_are_the_member_names() {
    assert_eq!(Field::Type.key(), "type");
    assert_eq!(Field::Sender.key(), "sender");
    assert_eq!(Field::Content.key(), "content");
}

#[test]
fn refused_content_is_content_error() {
    let raw = decode(r#"{"type":"m.key.verification.cancel","sender":"@bob:example.org","content":{"code":"x"}}"#)
        .expect("payload decodes");
    let (kind, envelope) = raw.into_parts();
    let outcome = Err("unknown cancel code".to_owned());
    let err = ToDevice::from_outcome(kind, envelope.sender, outcome).unwrap_err();
    assert_eq!(
        err,
        ContentError {
            kind: EventType::KeyVerificationCancel,
            cause: "unknown cancel code".to_owned(),
        }
    );
}

#[test]
fn accepted_outcome_keeps_kind_and_sender() {
    let raw = decode(r#"{"type":"m.key.verification.start","sender":"@bob:example.org","content":{"method":"m.sas.v1"}}"#)
        .expect("payload decodes");
    let (kind, envelope) = raw.into_parts();
    let validated = json(r#"{"method":"m.sas.v1","checked":true}"#);
    let event = ToDevice::from_outcome(kind, envelope.sender, Ok(validated.clone())).unwrap();
    match event {
        ToDevice::KeyVerificationStart(e) => {
            assert_eq!(e.sender.as_str(), "@bob:example.org");
            assert_eq!(e.content, validated);
        }
        other => panic!("wrong variant: {:?}", other),
    }
}
