//! Raw to-device events: decoded by their structure, their content not yet
//! validated.

use vstd::prelude::*;

use super::{decode_spec, DecodeError, DecodeErrorView, EventView, Field, ToDeviceEvent};
use crate::event_type::EventType;
use crate::json::{as_text, get_field};

verus! {

/// A to-device event whose content is as it was decoded.
#[derive(Clone, Debug, PartialEq)]
pub enum ToDevice {
    /// To-device version of the *m.room_key* event.
    RoomKey(ToDeviceEvent<serde_json::Value>),
    /// To-device version of the *m.room.encrypted* event.
    RoomEncrypted(ToDeviceEvent<serde_json::Value>),
    /// To-device version of the *m.forwarded_room_key* event.
    ForwardedRoomKey(ToDeviceEvent<serde_json::Value>),
    /// To-device version of the *m.room_key_request* event.
    RoomKeyRequest(ToDeviceEvent<serde_json::Value>),
    /// To-device version of the *m.key.verification.start* event.
    KeyVerificationStart(ToDeviceEvent<serde_json::Value>),
    /// To-device version of the *m.key.verification.accept* event.
    KeyVerificationAccept(ToDeviceEvent<serde_json::Value>),
    /// To-device version of the *m.key.verification.key* event.
    KeyVerificationKey(ToDeviceEvent<serde_json::Value>),
    /// To-device version of the *m.key.verification.mac* event.
    KeyVerificationMac(ToDeviceEvent<serde_json::Value>),
    /// To-device version of the *m.key.verification.cancel* event.
    KeyVerificationCancel(ToDeviceEvent<serde_json::Value>),
    /// To-device version of the *m.key.verification.request* event.
    KeyVerificationRequest(ToDeviceEvent<serde_json::Value>),
}

impl ToDevice {
    /// The kind of this event and its envelope.
    pub open spec fn parts(&self) -> (EventType, ToDeviceEvent<serde_json::Value>) {
        match self {
            ToDevice::RoomKey(e) => (EventType::RoomKey, *e),
            ToDevice::RoomEncrypted(e) => (EventType::RoomEncrypted, *e),
            ToDevice::ForwardedRoomKey(e) => (EventType::ForwardedRoomKey, *e),
            ToDevice::RoomKeyRequest(e) => (EventType::RoomKeyRequest, *e),
            ToDevice::KeyVerificationStart(e) => (EventType::KeyVerificationStart, *e),
            ToDevice::KeyVerificationAccept(e) => (EventType::KeyVerificationAccept, *e),
            ToDevice::KeyVerificationKey(e) => (EventType::KeyVerificationKey, *e),
            ToDevice::KeyVerificationMac(e) => (EventType::KeyVerificationMac, *e),
            ToDevice::KeyVerificationCancel(e) => (EventType::KeyVerificationCancel, *e),
            ToDevice::KeyVerificationRequest(e) => (EventType::KeyVerificationRequest, *e),
        }
    }

    /// The raw event of kind `kind` with envelope `event`.
    pub fn from_parts(kind: EventType, event: ToDeviceEvent<serde_json::Value>) -> (r: Self)
        ensures
            r.parts() == (kind, event),
    {
        match kind {
            EventType::RoomKey => ToDevice::RoomKey(event),
            EventType::RoomEncrypted => ToDevice::RoomEncrypted(event),
            EventType::ForwardedRoomKey => ToDevice::ForwardedRoomKey(event),
            EventType::RoomKeyRequest => ToDevice::RoomKeyRequest(event),
            EventType::KeyVerificationStart => ToDevice::KeyVerificationStart(event),
            EventType::KeyVerificationAccept => ToDevice::KeyVerificationAccept(event),
            EventType::KeyVerificationKey => ToDevice::KeyVerificationKey(event),
            EventType::KeyVerificationMac => ToDevice::KeyVerificationMac(event),
            EventType::KeyVerificationCancel => ToDevice::KeyVerificationCancel(event),
            EventType::KeyVerificationRequest => ToDevice::KeyVerificationRequest(event),
        }
    }

    /// Takes the event apart into its kind and its envelope.
    pub fn into_parts(self) -> (r: (EventType, ToDeviceEvent<serde_json::Value>))
        ensures
            r == self.parts(),
    {
        match self {
            ToDevice::RoomKey(e) => (EventType::RoomKey, e),
            ToDevice::RoomEncrypted(e) => (EventType::RoomEncrypted, e),
            ToDevice::ForwardedRoomKey(e) => (EventType::ForwardedRoomKey, e),
            ToDevice::RoomKeyRequest(e) => (EventType::RoomKeyRequest, e),
            ToDevice::KeyVerificationStart(e) => (EventType::KeyVerificationStart, e),
            ToDevice::KeyVerificationAccept(e) => (EventType::KeyVerificationAccept, e),
            ToDevice::KeyVerificationKey(e) => (EventType::KeyVerificationKey, e),
            ToDevice::KeyVerificationMac(e) => (EventType::KeyVerificationMac, e),
            ToDevice::KeyVerificationCancel(e) => (EventType::KeyVerificationCancel, e),
            ToDevice::KeyVerificationRequest(e) => (EventType::KeyVerificationRequest, e),
        }
    }

    /// The kind of this event.
    pub fn kind(&self) -> (r: EventType)
        ensures
            r == self.parts().0,
    {
        match self {
            ToDevice::RoomKey(_) => EventType::RoomKey,
            ToDevice::RoomEncrypted(_) => EventType::RoomEncrypted,
            ToDevice::ForwardedRoomKey(_) => EventType::ForwardedRoomKey,
            ToDevice::RoomKeyRequest(_) => EventType::RoomKeyRequest,
            ToDevice::KeyVerificationStart(_) => EventType::KeyVerificationStart,
            ToDevice::KeyVerificationAccept(_) => EventType::KeyVerificationAccept,
            ToDevice::KeyVerificationKey(_) => EventType::KeyVerificationKey,
            ToDevice::KeyVerificationMac(_) => EventType::KeyVerificationMac,
            ToDevice::KeyVerificationCancel(_) => EventType::KeyVerificationCancel,
            ToDevice::KeyVerificationRequest(_) => EventType::KeyVerificationRequest,
        }
    }
}

impl View for ToDevice {
    type V = EventView;

    open spec fn view(&self) -> EventView {
        EventView {
            kind: self.parts().0,
            sender: self.parts().1.sender@,
            content: self.parts().1.content,
        }
    }
}

/// A decoding outcome as the contracts see it.
pub open spec fn decoded_view(r: Result<ToDevice, DecodeError>) -> Result<EventView, DecodeErrorView> {
    match r {
        Ok(e) => Ok(e@),
        Err(err) => Err(err@),
    }
}

impl ToDevice {
    /// Decodes a payload: its `type` names the kind, and the whole payload is
    /// then read as that kind's envelope.
    pub fn decode(v: &serde_json::Value) -> (r: Result<ToDevice, DecodeError>)
        ensures
            decoded_view(r) == decode_spec(*v),
    {
        let tag = match get_field(v, Field::Type.key()) {
            Some(t) => as_text(&t),
            None => None,
        };
        let tag = match tag {
            Some(t) => t,
            None => return Err(DecodeError::MissingField(Field::Type)),
        };
        let kind = match EventType::from_tag(tag.as_str()) {
            Some(k) => k,
            None => return Err(DecodeError::UnknownEventType(tag)),
        };
        match ToDeviceEvent::from_json(v) {
            Ok(event) => Ok(ToDevice::from_parts(kind, event)),
            Err(f) => Err(DecodeError::MissingField(f)),
        }
    }
}

} // verus!
