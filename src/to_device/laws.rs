//! What decoding, validating and encoding to-device events satisfy together.

use vstd::prelude::*;

use super::{
    decode_spec, encodes, envelope_of, field_key, validate_spec, ContentErrorView, ContentValidator,
    DecodeErrorView, EventView, Field,
};
use crate::event_type::{kind_of_tag, lemma_tag_names_kind, tag_of, EventType};
use crate::identifiers::user_id_text;
use crate::json::{field_of, is_object_value, text_field};

verus! {

/// A well-formed payload whose `type` is the tag of a known kind decodes to
/// an event of that kind, with the canonical sender and the `content` member
/// as it stands; validating it gives that event with the validated content.
pub proof fn lemma_decode_then_validate<V: ContentValidator>(
    v: serde_json::Value,
    k: EventType,
    sender: Seq<char>,
    content: serde_json::Value,
    validator: V,
)
    requires
        text_field(v, field_key(Field::Type)) == Some(tag_of(k)),
        text_field(v, field_key(Field::Sender)) == Some(sender),
        user_id_text(sender) is Some,
        field_of(v, field_key(Field::Content)) == Some(content),
        is_object_value(content),
    ensures
        decode_spec(v) == Ok::<EventView, DecodeErrorView>(
            EventView { kind: k, sender: user_id_text(sender)->Some_0, content },
        ),
        validator.outcome(k, content) is Ok ==> validate_spec(decode_spec(v)->Ok_0, validator)
            == Ok::<EventView, ContentErrorView>(
            EventView {
                kind: k,
                sender: user_id_text(sender)->Some_0,
                content: validator.outcome(k, content)->Ok_0,
            },
        ),
{
    lemma_tag_names_kind(k);
}

/// A payload without a `type` string fails on `type`, whatever else it holds.
pub proof fn lemma_missing_type(v: serde_json::Value)
    requires
        text_field(v, field_key(Field::Type)) is None,
    ensures
        decode_spec(v) == Err::<EventView, DecodeErrorView>(
            DecodeErrorView::MissingField(Field::Type),
        ),
{
}

/// A payload whose `type` is no known tag fails with that tag, unchanged.
pub proof fn lemma_unknown_type(v: serde_json::Value, t: Seq<char>)
    requires
        text_field(v, field_key(Field::Type)) == Some(t),
        forall|k: EventType| tag_of(k) != t,
    ensures
        decode_spec(v) == Err::<EventView, DecodeErrorView>(DecodeErrorView::UnknownEventType(t)),
{
    assert(kind_of_tag(t) is None);
}

/// A payload of a known kind without a `sender` string fails on `sender`
/// where its `content` is an object, and one without `content` fails on
/// `content`.
pub proof fn lemma_missing_member(v: serde_json::Value, k: EventType)
    requires
        text_field(v, field_key(Field::Type)) == Some(tag_of(k)),
    ensures
        field_of(v, field_key(Field::Content)) is None ==> decode_spec(v) == Err::<
            EventView,
            DecodeErrorView,
        >(DecodeErrorView::MissingField(Field::Content)),
        (field_of(v, field_key(Field::Content)) matches Some(c) && is_object_value(c)) && text_field(
            v,
            field_key(Field::Sender),
        ) is None ==> decode_spec(v) == Err::<EventView, DecodeErrorView>(
            DecodeErrorView::MissingField(Field::Sender),
        ),
{
    lemma_tag_names_kind(k);
}

/// Validating validated content again changes nothing.
pub proof fn lemma_validate_idempotent<V: ContentValidator>(raw: EventView, validator: V)
    requires
        validate_spec(raw, validator) is Ok,
    ensures
        validate_spec(validate_spec(raw, validator)->Ok_0, validator) == validate_spec(
            raw,
            validator,
        ),
{
    validator.lemma_outcome_idempotent(raw.kind, raw.content);
}

/// A validated event, encoded as a payload, decodes to a raw event with the
/// same kind, sender and content, and validating that gives the event back.
/// This holds where its content is an object and its sender's text parses
/// back to that same text.
pub proof fn lemma_round_trip<V: ContentValidator>(
    raw: EventView,
    e: EventView,
    v: serde_json::Value,
    validator: V,
)
    requires
        validate_spec(raw, validator) == Ok::<EventView, ContentErrorView>(e),
        encodes(v, e),
        is_object_value(e.content),
        user_id_text(e.sender) == Some(e.sender),
    ensures
        decode_spec(v) == Ok::<EventView, DecodeErrorView>(e),
        validate_spec(e, validator) == Ok::<EventView, ContentErrorView>(e),
{
    lemma_tag_names_kind(e.kind);
    assert(envelope_of(v) == Ok::<(Seq<char>, serde_json::Value), Field>((e.sender, e.content)));
    validator.lemma_outcome_idempotent(raw.kind, raw.content);
}

} // verus!
