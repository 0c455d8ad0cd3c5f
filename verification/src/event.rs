//! The event model: raw OS input events, normalized device events, and the
//! total classification from the former to the latter.

use vstd::prelude::*;

verus! {

/// The kind of a normalized device event. A closed enumeration: exactly these
/// five kinds exist, with no dynamic extension.
#[derive(Debug, Clone, Copy, PartialEq, Eq, Structural)]
pub enum DeviceEventKind {
    MousePress,
    MouseRelease,
    MouseMove,
    KeyboardPress,
    KeyboardRelease,
}

/// The payload of a normalized device event. Its shape is fully determined by
/// the event kind (see `DeviceEvent::wf`).
#[derive(Debug, Clone, PartialEq, Eq)]
pub enum DeviceEventValue {
    /// Identifier of the mouse button, rendered as text.
    Button(String),
    /// Pointer position in whole-pixel screen coordinates.
    Position { x: i64, y: i64 },
    /// Identifier of the physical or virtual key, rendered as text.
    Key(String),
}

/// A normalized device event: a kind together with the payload that kind calls
/// for.
#[derive(Debug, Clone, PartialEq, Eq)]
pub struct DeviceEvent {
    pub kind: DeviceEventKind,
    pub value: DeviceEventValue,
}

impl DeviceEvent {
    /// The payload shape matches the kind: button identifiers for mouse
    /// presses and releases, a position for mouse motion, key identifiers for
    /// keyboard presses and releases.
    pub open spec fn wf(self) -> bool {
        match self.kind {
            DeviceEventKind::MousePress => self.value is Button,
            DeviceEventKind::MouseRelease => self.value is Button,
            DeviceEventKind::MouseMove => self.value is Position,
            DeviceEventKind::KeyboardPress => self.value is Key,
            DeviceEventKind::KeyboardRelease => self.value is Key,
        }
    }
}

/// A raw event as the OS-level input hook delivers it. The five handled kinds
/// carry the data the event model keeps; `Other` stands for every raw kind the
/// system does not republish (wheel motion, device notifications, and the
/// like).
#[derive(Debug, Clone, PartialEq, Eq)]
pub enum RawEvent {
    ButtonPress(String),
    ButtonRelease(String),
    MouseMove { x: i64, y: i64 },
    KeyPress(String),
    KeyRelease(String),
    Other,
}

/// What `classify` returns: the normalized event for each handled raw kind,
/// nothing for `Other`.
pub open spec fn classify_spec(raw: RawEvent) -> Option<DeviceEvent> {
    match raw {
        RawEvent::ButtonPress(button) => Some(
            DeviceEvent { kind: DeviceEventKind::MousePress, value: DeviceEventValue::Button(button) },
        ),
        RawEvent::ButtonRelease(button) => Some(
            DeviceEvent { kind: DeviceEventKind::MouseRelease, value: DeviceEventValue::Button(button) },
        ),
        RawEvent::MouseMove { x, y } => Some(
            DeviceEvent { kind: DeviceEventKind::MouseMove, value: DeviceEventValue::Position { x, y } },
        ),
        RawEvent::KeyPress(key) => Some(
            DeviceEvent { kind: DeviceEventKind::KeyboardPress, value: DeviceEventValue::Key(key) },
        ),
        RawEvent::KeyRelease(key) => Some(
            DeviceEvent { kind: DeviceEventKind::KeyboardRelease, value: DeviceEventValue::Key(key) },
        ),
        RawEvent::Other => None,
    }
}

/// Classify a raw event into the event model, or report that it is not
/// representable (`None`), in which case the capture loop drops it silently.
pub fn classify(raw: RawEvent) -> (out: Option<DeviceEvent>)
    ensures
        out == classify_spec(raw),
        out matches Some(ev) ==> ev.wf(),
{
    match raw {
        RawEvent::ButtonPress(button) => Some(
            DeviceEvent { kind: DeviceEventKind::MousePress, value: DeviceEventValue::Button(button) },
        ),
        RawEvent::ButtonRelease(button) => Some(
            DeviceEvent { kind: DeviceEventKind::MouseRelease, value: DeviceEventValue::Button(button) },
        ),
        RawEvent::MouseMove { x, y } => Some(
            DeviceEvent { kind: DeviceEventKind::MouseMove, value: DeviceEventValue::Position { x, y } },
        ),
        RawEvent::KeyPress(key) => Some(
            DeviceEvent { kind: DeviceEventKind::KeyboardPress, value: DeviceEventValue::Key(key) },
        ),
        RawEvent::KeyRelease(key) => Some(
            DeviceEvent { kind: DeviceEventKind::KeyboardRelease, value: DeviceEventValue::Key(key) },
        ),
        RawEvent::Other => None,
    }
}

/// Classification is total over the raw event surface: each of the five
/// handled raw kinds maps to exactly one event kind, with a payload matching
/// the kind's shape, and every other raw kind maps to no event at all.
pub proof fn lemma_classification_total(raw: RawEvent)
    ensures
        raw matches RawEvent::ButtonPress(b) ==> classify_spec(raw) == Some(
            DeviceEvent { kind: DeviceEventKind::MousePress, value: DeviceEventValue::Button(b) },
        ),
        raw matches RawEvent::ButtonRelease(b) ==> classify_spec(raw) == Some(
            DeviceEvent { kind: DeviceEventKind::MouseRelease, value: DeviceEventValue::Button(b) },
        ),
        raw matches RawEvent::MouseMove { x, y } ==> classify_spec(raw) == Some(
            DeviceEvent { kind: DeviceEventKind::MouseMove, value: DeviceEventValue::Position { x, y } },
        ),
        raw matches RawEvent::KeyPress(k) ==> classify_spec(raw) == Some(
            DeviceEvent { kind: DeviceEventKind::KeyboardPress, value: DeviceEventValue::Key(k) },
        ),
        raw matches RawEvent::KeyRelease(k) ==> classify_spec(raw) == Some(
            DeviceEvent { kind: DeviceEventKind::KeyboardRelease, value: DeviceEventValue::Key(k) },
        ),
        classify_spec(raw) is None <==> raw is Other,
        classify_spec(raw) matches Some(ev) ==> ev.wf(),
{
}

} // verus!
