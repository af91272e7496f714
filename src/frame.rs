//! Reading the frames of the hub's event stream.
use vstd::prelude::*;
use crate::fanout::NotifyEvent;
use crate::stream::FrameKind;
use crate::text::str_eq;

verus! {

/// Whether a text is one JSON document.
pub uninterp spec fn json_ok(text: Seq<char>) -> bool;

/// The JSON string found at a JSON pointer in a text, if the text is JSON and
/// a string stands there.
pub uninterp spec fn json_text_at(text: Seq<char>, pointer: Seq<char>) -> Option<Seq<char>>;

/// Relies on `serde_json::from_str` into a `Value`: whether the text parses
/// depends on the text alone.
#[verifier::external_body]
fn is_json(text: &str) -> (r: bool)
    ensures
        r == json_ok(text@),
{
    serde_json::from_str::<serde_json::Value>(text).is_ok()
}

/// Relies on `serde_json::from_str`, `Value::pointer` and `Value::as_str`: the
/// string at `pointer` in the parsed text depends on the two texts alone.
#[verifier::external_body]
fn text_at(text: &str, pointer: &str) -> (r: Option<String>)
    ensures
        r matches Some(s) ==> json_text_at(text@, pointer@) == Some(s@),
        r is None <==> json_text_at(text@, pointer@) is None,
{
    serde_json::from_str::<serde_json::Value>(text)
        .ok()
        .and_then(|v| v.pointer(pointer).and_then(|x| x.as_str()).map(|x| x.to_string()))
}

pub open spec fn opt_string(s: Option<String>) -> Option<Seq<char>> {
    match s {
        Some(x) => Some(x@),
        None => None,
    }
}

pub open spec fn opt_seq(s: Option<&str>) -> Option<Seq<char>> {
    match s {
        Some(x) => Some(x@),
        None => None,
    }
}

/// The kind of a JSON frame, by its `type` and, for events, its event type.
pub open spec fn frame_kind(msg_type: Option<Seq<char>>, event_type: Option<Seq<char>>) -> FrameKind {
    match msg_type {
        Some(t) => if t == "auth_required"@ {
            FrameKind::AuthRequired
        } else if t == "auth_ok"@ {
            FrameKind::AuthOk
        } else if t == "event"@ && event_type == Some("state_changed"@) {
            FrameKind::StateChanged
        } else {
            FrameKind::Other
        },
        None => FrameKind::Other,
    }
}

pub fn classify_frame(msg_type: Option<&str>, event_type: Option<&str>) -> (r: FrameKind)
    ensures
        r == frame_kind(opt_seq(msg_type), opt_seq(event_type)),
{
    match msg_type {
        Some(t) => if str_eq(t, "auth_required") {
            FrameKind::AuthRequired
        } else if str_eq(t, "auth_ok") {
            FrameKind::AuthOk
        } else if str_eq(t, "event") && match event_type {
            Some(e) => str_eq(e, "state_changed"),
            None => false,
        } {
            FrameKind::StateChanged
        } else {
            FrameKind::Other
        },
        None => FrameKind::Other,
    }
}

pub open spec fn or_text(s: Option<String>, d: Seq<char>) -> Seq<char> {
    match s {
        Some(x) => x@,
        None => d,
    }
}

/// An event from the fields of a `state_changed` frame; missing texts are
/// empty, a missing name is "Устройство".
pub fn event_from_fields(
    entity_id: Option<String>,
    old_state: Option<String>,
    new_state: Option<String>,
    friendly_name: Option<String>,
    device_class: Option<String>,
) -> (r: NotifyEvent)
    ensures
        r.entity_id@ == or_text(entity_id, Seq::empty()),
        r.old_state@ == or_text(old_state, Seq::empty()),
        r.new_state@ == or_text(new_state, Seq::empty()),
        r.friendly_name@ == or_text(friendly_name, "Устройство"@),
        r.device_class == device_class,
{
    let e = match entity_id {
        Some(x) => x,
        None => String::new(),
    };
    let o = match old_state {
        Some(x) => x,
        None => String::new(),
    };
    let n = match new_state {
        Some(x) => x,
        None => String::new(),
    };
    let f = match friendly_name {
        Some(x) => x,
        None => String::from_str("Устройство"),
    };
    NotifyEvent { entity_id: e, old_state: o, new_state: n, friendly_name: f, device_class }
}

/// A frame of the stream: its kind and, for a state change, the event.
pub struct Frame {
    pub kind: FrameKind,
    pub event: Option<NotifyEvent>,
}

pub open spec fn field_text(text: Seq<char>, pointer: Seq<char>, default: Seq<char>) -> Seq<char> {
    match json_text_at(text, pointer) {
        Some(x) => x,
        None => default,
    }
}

/// Reads one text frame. Empty frames are heartbeats and other non-JSON
/// frames are malformed; the caller skips both. A JSON frame is classified by
/// its `type` and event type, and a state change carries its event.
pub fn read_frame(text: &str) -> (r: Frame)
    ensures
        text@.len() == 0 ==> r.kind == FrameKind::Empty,
        text@.len() > 0 && !json_ok(text@) ==> r.kind == FrameKind::Malformed,
        text@.len() > 0 && json_ok(text@) ==> r.kind == frame_kind(
            json_text_at(text@, "/type"@),
            json_text_at(text@, "/event/event_type"@),
        ),
        r.event is Some <==> r.kind == FrameKind::StateChanged,
        r.event matches Some(e) ==> {
            &&& e.entity_id@ == field_text(text@, "/event/data/entity_id"@, Seq::empty())
            &&& e.old_state@ == field_text(text@, "/event/data/old_state/state"@, Seq::empty())
            &&& e.new_state@ == field_text(text@, "/event/data/new_state/state"@, Seq::empty())
            &&& e.friendly_name@ == field_text(
                text@,
                "/event/data/new_state/attributes/friendly_name"@,
                "Устройство"@,
            )
            &&& opt_string(e.device_class) == json_text_at(
                text@,
                "/event/data/new_state/attributes/device_class"@,
            )
        },
{
    if text.unicode_len() == 0 {
        return Frame { kind: FrameKind::Empty, event: None };
    }
    if !is_json(text) {
        return Frame { kind: FrameKind::Malformed, event: None };
    }
    let msg_type = text_at(text, "/type");
    let event_type = text_at(text, "/event/event_type");
    let t: Option<&str> = match &msg_type {
        Some(s) => Some(s.as_str()),
        None => None,
    };
    let et: Option<&str> = match &event_type {
        Some(s) => Some(s.as_str()),
        None => None,
    };
    assert(opt_seq(t) == json_text_at(text@, "/type"@));
    assert(opt_seq(et) == json_text_at(text@, "/event/event_type"@));
    let kind = classify_frame(t, et);
    if kind != FrameKind::StateChanged {
        return Frame { kind, event: None };
    }
    let device_class = text_at(text, "/event/data/new_state/attributes/device_class");
    let event = event_from_fields(
        text_at(text, "/event/data/entity_id"),
        text_at(text, "/event/data/old_state/state"),
        text_at(text, "/event/data/new_state/state"),
        text_at(text, "/event/data/new_state/attributes/friendly_name"),
        device_class,
    );
    Frame { kind, event: Some(event) }
}

} // verus!
