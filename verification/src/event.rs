//! Webhook events: as they arrive in a payload, and as they are recorded.
use crate::text;
use vstd::prelude::*;

verus! {

/// What is known of an event.
#[verifier::ext_equal]
pub struct EventView {
    pub event_id: Seq<char>,
    pub event_type: Seq<char>,
    pub created_at: Option<Seq<char>>,
    pub request_id: Option<Seq<char>>,
}

/// The part of an Airwallex notification that the receiver reads.
#[derive(Debug)]
pub struct AirwallexEventEnvelope {
    pub id: String,
    pub event_type: String,
    pub created_at: Option<String>,
    pub request_id: Option<String>,
}

impl View for AirwallexEventEnvelope {
    type V = EventView;

    open spec fn view(&self) -> EventView {
        EventView {
            event_id: self.id@,
            event_type: self.event_type@,
            created_at: text::text_of(self.created_at),
            request_id: text::text_of(self.request_id),
        }
    }
}

impl Clone for AirwallexEventEnvelope {
    fn clone(&self) -> (copy: Self)
        ensures
            copy == *self,
    {
        AirwallexEventEnvelope {
            id: self.id.clone(),
            event_type: self.event_type.clone(),
            created_at: copy_text(&self.created_at),
            request_id: copy_text(&self.request_id),
        }
    }
}

/// An authenticated event that the recorder holds.
#[derive(Debug, Eq, PartialEq)]
pub struct RecordedWebhookEvent {
    pub event_id: String,
    pub event_type: String,
    pub created_at: Option<String>,
    pub request_id: Option<String>,
}

impl View for RecordedWebhookEvent {
    type V = EventView;

    open spec fn view(&self) -> EventView {
        EventView {
            event_id: self.event_id@,
            event_type: self.event_type@,
            created_at: text::text_of(self.created_at),
            request_id: text::text_of(self.request_id),
        }
    }
}

impl Clone for RecordedWebhookEvent {
    fn clone(&self) -> (copy: Self)
        ensures
            copy == *self,
    {
        RecordedWebhookEvent {
            event_id: self.event_id.clone(),
            event_type: self.event_type.clone(),
            created_at: copy_text(&self.created_at),
            request_id: copy_text(&self.request_id),
        }
    }
}

/// A copy of an optional text.
fn copy_text(text: &Option<String>) -> (copy: Option<String>)
    ensures
        copy == *text,
{
    match text {
        Some(text) => Some(text.clone()),
        None => None,
    }
}

/// A JSON value, as far as an optional text field tells its kinds apart.
#[derive(Debug)]
pub enum JsonValue {
    Null,
    Bool(bool),
    /// A number, in the text that the JSON library writes for it.
    Number(String),
    Text(String),
    Array,
    Object,
}

/// The text that a JSON field stands for: a string is its own text, a number and a boolean
/// are written out, and a missing field, a null, an array and an object have none.
pub open spec fn optional_text(value: Option<JsonValue>) -> Option<Seq<char>> {
    match value {
        Some(JsonValue::Text(text)) => Some(text@),
        Some(JsonValue::Number(text)) => Some(text@),
        Some(JsonValue::Bool(true)) => Some("true"@),
        Some(JsonValue::Bool(false)) => Some("false"@),
        _ => None,
    }
}

/// Reads an optional text field leniently: a scalar of any kind becomes its text.
pub fn deserialize_optional_string(value: Option<JsonValue>) -> (text: Option<String>)
    ensures
        text::text_of(text) == optional_text(value),
        value matches Some(JsonValue::Text(given)) ==> (text matches Some(read) && read@
            == given@),
        value matches Some(JsonValue::Number(given)) ==> (text matches Some(read) && read@
            == given@),
        value matches Some(JsonValue::Bool(flag)) ==> (text matches Some(read) && read@ == (
        if flag {
            "true"@
        } else {
            "false"@
        })),
        text is None <==> value is None || value->Some_0 is Null || value->Some_0 is Array
            || value->Some_0 is Object,
{
    match value {
        None => None,
        Some(value) => match value {
            JsonValue::Null => None,
            JsonValue::Text(text) => Some(text),
            JsonValue::Number(text) => Some(text),
            JsonValue::Bool(flag) => if flag {
                Some("true".to_owned())
            } else {
                Some("false".to_owned())
            },
            JsonValue::Array => None,
            JsonValue::Object => None,
        },
    }
}

} // verus!
