//! The closed set of event kinds that may travel as to-device events, and the
//! wire tags that name them.

use vstd::prelude::*;

verus! {

/// A kind of to-device event.
#[derive(Clone, Copy, Debug, PartialEq, Eq, Structural)]
pub enum EventType {
    /// *m.room_key*
    RoomKey,
    /// *m.room.encrypted*
    RoomEncrypted,
    /// *m.forwarded_room_key*
    ForwardedRoomKey,
    /// *m.room_key_request*
    RoomKeyRequest,
    /// *m.key.verification.start*
    KeyVerificationStart,
    /// *m.key.verification.accept*
    KeyVerificationAccept,
    /// *m.key.verification.key*
    KeyVerificationKey,
    /// *m.key.verification.mac*
    KeyVerificationMac,
    /// *m.key.verification.cancel*
    KeyVerificationCancel,
    /// *m.key.verification.request*
    KeyVerificationRequest,
}

/// The wire tag of each kind.
pub open spec fn tag_of(k: EventType) -> Seq<char> {
    match k {
        EventType::RoomKey => "m.room_key"@,
        EventType::RoomEncrypted => "m.room.encrypted"@,
        EventType::ForwardedRoomKey => "m.forwarded_room_key"@,
        EventType::RoomKeyRequest => "m.room_key_request"@,
        EventType::KeyVerificationStart => "m.key.verification.start"@,
        EventType::KeyVerificationAccept => "m.key.verification.accept"@,
        EventType::KeyVerificationKey => "m.key.verification.key"@,
        EventType::KeyVerificationMac => "m.key.verification.mac"@,
        EventType::KeyVerificationCancel => "m.key.verification.cancel"@,
        EventType::KeyVerificationRequest => "m.key.verification.request"@,
    }
}

/// The kind that a wire tag names, if any.
pub open spec fn kind_of_tag(s: Seq<char>) -> Option<EventType> {
    if s == tag_of(EventType::RoomKey) {
        Some(EventType::RoomKey)
    } else if s == tag_of(EventType::RoomEncrypted) {
        Some(EventType::RoomEncrypted)
    } else if s == tag_of(EventType::ForwardedRoomKey) {
        Some(EventType::ForwardedRoomKey)
    } else if s == tag_of(EventType::RoomKeyRequest) {
        Some(EventType::RoomKeyRequest)
    } else if s == tag_of(EventType::KeyVerificationStart) {
        Some(EventType::KeyVerificationStart)
    } else if s == tag_of(EventType::KeyVerificationAccept) {
        Some(EventType::KeyVerificationAccept)
    } else if s == tag_of(EventType::KeyVerificationKey) {
        Some(EventType::KeyVerificationKey)
    } else if s == tag_of(EventType::KeyVerificationMac) {
        Some(EventType::KeyVerificationMac)
    } else if s == tag_of(EventType::KeyVerificationCancel) {
        Some(EventType::KeyVerificationCancel)
    } else if s == tag_of(EventType::KeyVerificationRequest) {
        Some(EventType::KeyVerificationRequest)
    } else {
        None
    }
}

/// Distinct kinds have distinct tags, so a kind's own tag names that kind.
pub proof fn lemma_tag_names_kind(k: EventType)
    ensures
        kind_of_tag(tag_of(k)) == Some(k),
{
    reveal_strlit("m.room_key");
    reveal_strlit("m.room.encrypted");
    reveal_strlit("m.forwarded_room_key");
    reveal_strlit("m.room_key_request");
    reveal_strlit("m.key.verification.start");
    reveal_strlit("m.key.verification.accept");
    reveal_strlit("m.key.verification.key");
    reveal_strlit("m.key.verification.mac");
    reveal_strlit("m.key.verification.cancel");
    reveal_strlit("m.key.verification.request");
    assert(tag_of(EventType::RoomKey).len() == 10);
    assert(tag_of(EventType::RoomEncrypted).len() == 16);
    assert(tag_of(EventType::ForwardedRoomKey).len() == 20);
    assert(tag_of(EventType::RoomKeyRequest).len() == 18);
    assert(tag_of(EventType::KeyVerificationStart).len() == 24);
    assert(tag_of(EventType::KeyVerificationAccept).len() == 25);
    assert(tag_of(EventType::KeyVerificationKey).len() == 22);
    assert(tag_of(EventType::KeyVerificationMac).len() == 22);
    assert(tag_of(EventType::KeyVerificationCancel).len() == 25);
    assert(tag_of(EventType::KeyVerificationRequest).len() == 26);
    // Tags of equal length are told apart by one character.
    assert(tag_of(EventType::KeyVerificationKey)[19] != tag_of(EventType::KeyVerificationMac)[19]);
    assert(tag_of(EventType::KeyVerificationAccept)[19] != tag_of(
        EventType::KeyVerificationCancel,
    )[19]);
}

impl EventType {
    /// The kind named by a wire tag, or `None` for a tag outside the known set.
    pub fn from_tag(s: &str) -> (r: Option<EventType>)
        ensures
            r == kind_of_tag(s@),
    {
        let s = s.to_owned();
        if s == "m.room_key".to_owned() {
            Some(EventType::RoomKey)
        } else if s == "m.room.encrypted".to_owned() {
            Some(EventType::RoomEncrypted)
        } else if s == "m.forwarded_room_key".to_owned() {
            Some(EventType::ForwardedRoomKey)
        } else if s == "m.room_key_request".to_owned() {
            Some(EventType::RoomKeyRequest)
        } else if s == "m.key.verification.start".to_owned() {
            Some(EventType::KeyVerificationStart)
        } else if s == "m.key.verification.accept".to_owned() {
            Some(EventType::KeyVerificationAccept)
        } else if s == "m.key.verification.key".to_owned() {
            Some(EventType::KeyVerificationKey)
        } else if s == "m.key.verification.mac".to_owned() {
            Some(EventType::KeyVerificationMac)
        } else if s == "m.key.verification.cancel".to_owned() {
            Some(EventType::KeyVerificationCancel)
        } else if s == "m.key.verification.request".to_owned() {
            Some(EventType::KeyVerificationRequest)
        } else {
            None
        }
    }

    /// The wire tag of this kind.
    pub fn as_str(&self) -> (r: &'static str)
        ensures
            r@ == tag_of(*self),
    {
        match self {
            EventType::RoomKey => "m.room_key",
            EventType::RoomEncrypted => "m.room.encrypted",
            EventType::ForwardedRoomKey => "m.forwarded_room_key",
            EventType::RoomKeyRequest => "m.room_key_request",
            EventType::KeyVerificationStart => "m.key.verification.start",
            EventType::KeyVerificationAccept => "m.key.verification.accept",
            EventType::KeyVerificationKey => "m.key.verification.key",
            EventType::KeyVerificationMac => "m.key.verification.mac",
            EventType::KeyVerificationCancel => "m.key.verification.cancel",
            EventType::KeyVerificationRequest => "m.key.verification.request",
        }
    }
}

} // verus!
