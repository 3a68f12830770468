//! "To-device" versions of encrypted and key verification events.
//!
//! Each to-device event carries only its `type`, its `sender` and its
//! `content`. A payload is decoded in two stages: its `type` picks one of the
//! known kinds and the whole payload is then read as that kind's envelope,
//! giving a raw event; validating the raw event's content then gives a
//! [`ToDevice`] event of the same kind.

use vstd::prelude::*;

use crate::event_type::{kind_of_tag, tag_of, EventType};
use crate::identifiers::{user_id_text, UserId};
use crate::json::{
    as_text, field_of, get_field, insert_member, is_object, is_object_value, new_object, object_value,
    string_value, text_field,
};

pub mod laws;
pub mod raw;

verus! {

/// A member that every to-device payload must carry.
#[derive(Clone, Copy, Debug, PartialEq, Eq, Structural)]
pub enum Field {
    /// `type`, the tag that names the kind of event.
    Type,
    /// `sender`, the user who sent the event.
    Sender,
    /// `content`, an object whose shape the kind decides.
    Content,
}

/// The key under which a member stands.
pub open spec fn field_key(f: Field) -> Seq<char> {
    match f {
        Field::Type => "type"@,
        Field::Sender => "sender"@,
        Field::Content => "content"@,
    }
}

impl Field {
    /// The key under which this member stands.
    pub fn key(&self) -> (r: &'static str)
        ensures
            r@ == field_key(*self),
    {
        match self {
            Field::Type => "type",
            Field::Sender => "sender",
            Field::Content => "content",
        }
    }
}

/// Why a payload could not be decoded.
#[derive(Clone, Debug, PartialEq, Eq)]
pub enum DecodeError {
    /// A member is absent, or is not of the shape it must have.
    MissingField(Field),
    /// The `type` names no known kind of to-device event; the tag is kept.
    UnknownEventType(String),
}

/// A [`DecodeError`] as the contracts see it.
pub ghost enum DecodeErrorView {
    MissingField(Field),
    UnknownEventType(Seq<char>),
}

impl View for DecodeError {
    type V = DecodeErrorView;

    open spec fn view(&self) -> DecodeErrorView {
        match self {
            DecodeError::MissingField(f) => DecodeErrorView::MissingField(*f),
            DecodeError::UnknownEventType(t) => DecodeErrorView::UnknownEventType(t@),
        }
    }
}

/// Content that decoded but was refused by its validation.
#[derive(Clone, Debug, PartialEq, Eq)]
pub struct ContentError {
    /// The kind of the event whose content was refused.
    pub kind: EventType,
    /// Why the content was refused.
    pub cause: String,
}

/// A [`ContentError`] as the contracts see it.
pub ghost struct ContentErrorView {
    pub kind: EventType,
    pub cause: Seq<char>,
}

impl View for ContentError {
    type V = ContentErrorView;

    open spec fn view(&self) -> ContentErrorView {
        ContentErrorView { kind: self.kind, cause: self.cause@ }
    }
}

/// One to-device event as the contracts see it: its kind, the text of its
/// sender and its content.
pub ghost struct EventView {
    pub kind: EventType,
    pub sender: Seq<char>,
    pub content: serde_json::Value,
}

/// Validation of the content of each kind of event, from its raw form to its
/// validated form.
pub trait ContentValidator {
    /// What validating `raw` content of kind `kind` gives: the validated
    /// content, or why it is refused.
    spec fn outcome(&self, kind: EventType, raw: serde_json::Value) -> Result<
        serde_json::Value,
        Seq<char>,
    >;

    /// Validated content is valid as it stands: validating it again gives it
    /// back unchanged.
    proof fn lemma_outcome_idempotent(&self, kind: EventType, raw: serde_json::Value)
        ensures
            self.outcome(kind, raw) is Ok ==> self.outcome(kind, self.outcome(kind, raw)->Ok_0)
                == self.outcome(kind, raw),
    ;

    /// Validates `raw` content of kind `kind`.
    fn validate(&self, kind: EventType, raw: serde_json::Value) -> (r: Result<
        serde_json::Value,
        String,
    >)
        ensures
            match r {
                Ok(c) => self.outcome(kind, raw) == Ok::<serde_json::Value, Seq<char>>(c),
                Err(e) => self.outcome(kind, raw) == Err::<serde_json::Value, Seq<char>>(e@),
            },
    ;
}

/// Takes content as it was decoded, for callers that validate content
/// elsewhere or not at all.
#[derive(Clone, Copy, Debug, PartialEq, Eq, Structural)]
pub struct AcceptAll;

impl ContentValidator for AcceptAll {
    open spec fn outcome(&self, kind: EventType, raw: serde_json::Value) -> Result<
        serde_json::Value,
        Seq<char>,
    > {
        Ok(raw)
    }

    proof fn lemma_outcome_idempotent(&self, kind: EventType, raw: serde_json::Value) {
    }

    fn validate(&self, kind: EventType, raw: serde_json::Value) -> (r: Result<
        serde_json::Value,
        String,
    >) {
        Ok(raw)
    }
}

/// What the envelope of a payload holds: the canonical text of its sender and
/// its content, or the first member found missing. `content` is read before
/// `sender`.
pub open spec fn envelope_of(v: serde_json::Value) -> Result<(Seq<char>, serde_json::Value), Field> {
    match field_of(v, field_key(Field::Content)) {
        None => Err(Field::Content),
        Some(c) => if !is_object_value(c) {
            Err(Field::Content)
        } else {
            match text_field(v, field_key(Field::Sender)) {
                None => Err(Field::Sender),
                Some(s) => match user_id_text(s) {
                    None => Err(Field::Sender),
                    Some(t) => Ok((t, c)),
                },
            }
        },
    }
}

/// What decoding a payload gives.
pub open spec fn decode_spec(v: serde_json::Value) -> Result<EventView, DecodeErrorView> {
    match text_field(v, field_key(Field::Type)) {
        None => Err(DecodeErrorView::MissingField(Field::Type)),
        Some(t) => match kind_of_tag(t) {
            None => Err(DecodeErrorView::UnknownEventType(t)),
            Some(k) => match envelope_of(v) {
                Err(f) => Err(DecodeErrorView::MissingField(f)),
                Ok((s, c)) => Ok(EventView { kind: k, sender: s, content: c }),
            },
        },
    }
}

/// What validating a raw event gives: the same kind and sender with the
/// validated content, or the refusal with the event's kind.
pub open spec fn validate_spec<V: ContentValidator>(e: EventView, v: V) -> Result<
    EventView,
    ContentErrorView,
> {
    match v.outcome(e.kind, e.content) {
        Ok(c) => Ok(EventView { kind: e.kind, sender: e.sender, content: c }),
        Err(cause) => Err(ContentErrorView { kind: e.kind, cause }),
    }
}

/// Whether `v` is a payload that carries the event `e`.
pub open spec fn encodes(v: serde_json::Value, e: EventView) -> bool {
    &&& is_object_value(v)
    &&& text_field(v, field_key(Field::Type)) == Some(tag_of(e.kind))
    &&& text_field(v, field_key(Field::Sender)) == Some(e.sender)
    &&& field_of(v, field_key(Field::Content)) == Some(e.content)
}

/// To-device event.
#[derive(Clone, Debug, PartialEq)]
pub struct ToDeviceEvent<C> {
    /// The unique identifier for the user who sent this event.
    pub sender: UserId,
    /// Data specific to the event type.
    pub content: C,
}

impl ToDeviceEvent<serde_json::Value> {
    /// Decodes the envelope of a payload: its `content`, which must be an
    /// object, and then its `sender`, which must be a user identifier. Other
    /// members are ignored.
    pub fn from_json(v: &serde_json::Value) -> (r: Result<Self, Field>)
        ensures
            match r {
                Ok(e) => envelope_of(*v) == Ok::<(Seq<char>, serde_json::Value), Field>(
                    (e.sender@, e.content),
                ),
                Err(f) => envelope_of(*v) == Err::<(Seq<char>, serde_json::Value), Field>(f),
            },
    {
        let content = match get_field(v, Field::Content.key()) {
            Some(c) => c,
            None => return Err(Field::Content),
        };
        if !is_object(&content) {
            return Err(Field::Content);
        }
        let text = match get_field(v, Field::Sender.key()) {
            Some(s) => as_text(&s),
            None => None,
        };
        let text = match text {
            Some(t) => t,
            None => return Err(Field::Sender),
        };
        match UserId::parse(text.as_str()) {
            Some(sender) => Ok(ToDeviceEvent { sender, content }),
            None => Err(Field::Sender),
        }
    }

    /// Validates the content with `v` as content of kind `kind`; the sender
    /// is kept.
    pub fn try_from_raw<V: ContentValidator>(self, kind: EventType, v: &V) -> (r: Result<
        Self,
        String,
    >)
        ensures
            match r {
                Ok(e) => e.sender == self.sender && v.outcome(kind, self.content) == Ok::<
                    serde_json::Value,
                    Seq<char>,
                >(e.content),
                Err(cause) => v.outcome(kind, self.content) == Err::<serde_json::Value, Seq<char>>(
                    cause@,
                ),
            },
    {
        let ToDeviceEvent { sender, content } = self;
        match v.validate(kind, content) {
            Ok(content) => Ok(ToDeviceEvent { sender, content }),
            Err(cause) => Err(cause),
        }
    }
}

/// To-device versions of events that will appear in the to-device part of a
/// sync response.
#[derive(Clone, Debug, PartialEq)]
pub enum ToDevice {
    /// To-device version of the *m.room_key* event.
    RoomKey(ToDeviceEvent<serde_json::Value>),
    /// To-device version of the *m.room.encrypted* event.
    RoomEncrypted(ToDeviceEvent<serde_json::Value>),
    /// To-device version of the *m.forwarded_room_key* event.
    ForwardedRoomKey(ToDeviceEvent<serde_json::Value>),
    /// To-device version of the *m.room_key_request* event.
    RoomKeyRequest(ToDeviceEvent<serde_json::Value>),
    /// To-device version of the *m.key.verification.start* event.
    KeyVerificationStart(ToDeviceEvent<serde_json::Value>),
    /// To-device version of the *m.key.verification.accept* event.
    KeyVerificationAccept(ToDeviceEvent<serde_json::Value>),
    /// To-device version of the *m.key.verification.key* event.
    KeyVerificationKey(ToDeviceEvent<serde_json::Value>),
    /// To-device version of the *m.key.verification.mac* event.
    KeyVerificationMac(ToDeviceEvent<serde_json::Value>),
    /// To-device version of the *m.key.verification.cancel* event.
    KeyVerificationCancel(ToDeviceEvent<serde_json::Value>),
    /// To-device version of the *m.key.verification.request* event.
    KeyVerificationRequest(ToDeviceEvent<serde_json::Value>),
}

impl ToDevice {
    /// The kind of this event and its envelope.
    pub open spec fn parts(&self) -> (EventType, ToDeviceEvent<serde_json::Value>) {
        match self {
            ToDevice::RoomKey(e) => (EventType::RoomKey, *e),
            ToDevice::RoomEncrypted(e) => (EventType::RoomEncrypted, *e),
            ToDevice::ForwardedRoomKey(e) => (EventType::ForwardedRoomKey, *e),
            ToDevice::RoomKeyRequest(e) => (EventType::RoomKeyRequest, *e),
            ToDevice::KeyVerificationStart(e) => (EventType::KeyVerificationStart, *e),
            ToDevice::KeyVerificationAccept(e) => (EventType::KeyVerificationAccept, *e),
            ToDevice::KeyVerificationKey(e) => (EventType::KeyVerificationKey, *e),
            ToDevice::KeyVerificationMac(e) => (EventType::KeyVerificationMac, *e),
            ToDevice::KeyVerificationCancel(e) => (EventType::KeyVerificationCancel, *e),
            ToDevice::KeyVerificationRequest(e) => (EventType::KeyVerificationRequest, *e),
        }
    }

    /// The validated event of kind `kind` with envelope `event`.
    pub fn from_parts(kind: EventType, event: ToDeviceEvent<serde_json::Value>) -> (r: Self)
        ensures
            r.parts() == (kind, event),
    {
        match kind {
            EventType::RoomKey => ToDevice::RoomKey(event),
            EventType::RoomEncrypted => ToDevice::RoomEncrypted(event),
            EventType::ForwardedRoomKey => ToDevice::ForwardedRoomKey(event),
            EventType::RoomKeyRequest => ToDevice::RoomKeyRequest(event),
            EventType::KeyVerificationStart => ToDevice::KeyVerificationStart(event),
            EventType::KeyVerificationAccept => ToDevice::KeyVerificationAccept(event),
            EventType::KeyVerificationKey => ToDevice::KeyVerificationKey(event),
            EventType::KeyVerificationMac => ToDevice::KeyVerificationMac(event),
            EventType::KeyVerificationCancel => ToDevice::KeyVerificationCancel(event),
            EventType::KeyVerificationRequest => ToDevice::KeyVerificationRequest(event),
        }
    }

    /// Takes the event apart into its kind and its envelope.
    pub fn into_parts(self) -> (r: (EventType, ToDeviceEvent<serde_json::Value>))
        ensures
            r == self.parts(),
    {
        match self {
            ToDevice::RoomKey(e) => (EventType::RoomKey, e),
            ToDevice::RoomEncrypted(e) => (EventType::RoomEncrypted, e),
            ToDevice::ForwardedRoomKey(e) => (EventType::ForwardedRoomKey, e),
            ToDevice::RoomKeyRequest(e) => (EventType::RoomKeyRequest, e),
            ToDevice::KeyVerificationStart(e) => (EventType::KeyVerificationStart, e),
            ToDevice::KeyVerificationAccept(e) => (EventType::KeyVerificationAccept, e),
            ToDevice::KeyVerificationKey(e) => (EventType::KeyVerificationKey, e),
            ToDevice::KeyVerificationMac(e) => (EventType::KeyVerificationMac, e),
            ToDevice::KeyVerificationCancel(e) => (EventType::KeyVerificationCancel, e),
            ToDevice::KeyVerificationRequest(e) => (EventType::KeyVerificationRequest, e),
        }
    }

    /// The kind of this event.
    pub fn kind(&self) -> (r: EventType)
        ensures
            r == self.parts().0,
    {
        match self {
            ToDevice::RoomKey(_) => EventType::RoomKey,
            ToDevice::RoomEncrypted(_) => EventType::RoomEncrypted,
            ToDevice::ForwardedRoomKey(_) => EventType::ForwardedRoomKey,
            ToDevice::RoomKeyRequest(_) => EventType::RoomKeyRequest,
            ToDevice::KeyVerificationStart(_) => EventType::KeyVerificationStart,
            ToDevice::KeyVerificationAccept(_) => EventType::KeyVerificationAccept,
            ToDevice::KeyVerificationKey(_) => EventType::KeyVerificationKey,
            ToDevice::KeyVerificationMac(_) => EventType::KeyVerificationMac,
            ToDevice::KeyVerificationCancel(_) => EventType::KeyVerificationCancel,
            ToDevice::KeyVerificationRequest(_) => EventType::KeyVerificationRequest,
        }
    }
}

impl View for ToDevice {
    type V = EventView;

    open spec fn view(&self) -> EventView {
        EventView {
            kind: self.parts().0,
            sender: self.parts().1.sender@,
            content: self.parts().1.content,
        }
    }
}

/// A validation outcome as the contracts see it.
pub open spec fn validated_view(r: Result<ToDevice, ContentError>) -> Result<EventView, ContentErrorView> {
    match r {
        Ok(e) => Ok(e@),
        Err(err) => Err(err@),
    }
}

impl ToDevice {
    /// Validates the content of a raw event with `v`. The kind and the sender
    /// are kept; a refusal keeps the validator's cause.
    pub fn try_from_raw<V: ContentValidator>(raw: raw::ToDevice, v: &V) -> (r: Result<
        ToDevice,
        ContentError,
    >)
        ensures
            validated_view(r) == validate_spec(raw@, *v),
    {
        let (kind, event) = raw.into_parts();
        match event.try_from_raw(kind, v) {
            Ok(event) => Ok(ToDevice::from_parts(kind, event)),
            Err(cause) => Err(ContentError { kind, cause }),
        }
    }

    /// The event that validation of content of kind `kind` from `sender`
    /// gives, where `outcome` is what that validation returned: validated
    /// content, or why the content was refused.
    pub fn from_outcome(kind: EventType, sender: UserId, outcome: Result<
        serde_json::Value,
        String,
    >) -> (r: Result<ToDevice, ContentError>)
        ensures
            r is Ok == outcome is Ok,
            r matches Ok(e) ==> e.parts() == (kind, (ToDeviceEvent { sender, content: outcome->Ok_0 })),
            r matches Err(e) ==> e == (ContentError { kind, cause: outcome->Err_0 }),
    {
        match outcome {
            Ok(content) => Ok(ToDevice::from_parts(kind, ToDeviceEvent { sender, content })),
            Err(cause) => Err(ContentError { kind, cause }),
        }
    }

    /// The raw event of the same kind, sender and content.
    pub fn into_raw(self) -> (r: raw::ToDevice)
        ensures
            r@ == self@,
    {
        let (kind, event) = self.into_parts();
        raw::ToDevice::from_parts(kind, event)
    }

    /// Encodes the event as a payload with its `type`, `sender` and `content`.
    pub fn into_json(self) -> (r: serde_json::Value)
        ensures
            encodes(r, self@),
    {
        let (kind, event) = self.into_parts();
        let ToDeviceEvent { sender, content } = event;
        let mut m = new_object();
        insert_member(&mut m, Field::Type.key().to_owned(), string_value(kind.as_str().to_owned()));
        insert_member(&mut m, Field::Sender.key().to_owned(), string_value(sender.as_str().to_owned()));
        insert_member(&mut m, Field::Content.key().to_owned(), content);
        proof {
            lemma_keys_distinct();
        }
        object_value(m)
    }
}

/// The three members have three distinct keys.
proof fn lemma_keys_distinct()
    ensures
        field_key(Field::Type) != field_key(Field::Sender),
        field_key(Field::Type) != field_key(Field::Content),
        field_key(Field::Sender) != field_key(Field::Content),
{
    reveal_strlit("type");
    reveal_strlit("sender");
    reveal_strlit("content");
    assert(field_key(Field::Type).len() == 4);
    assert(field_key(Field::Sender).len() == 6);
    assert(field_key(Field::Content).len() == 7);
}

} // verus!
