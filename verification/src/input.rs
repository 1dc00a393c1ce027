//! Classification of raw input events.

use vstd::prelude::*;

verus! {

/// Event types of the Linux input layer.
pub const EV_KEY: u16 = 0x01;

pub const EV_ABS: u16 = 0x03;

/// Absolute axes.
pub const ABS_X: u16 = 0x00;

pub const ABS_Y: u16 = 0x01;

pub const ABS_MT_POSITION_X: u16 = 0x35;

/// Buttons and tools.
pub const BTN_LEFT: u16 = 0x110;

pub const BTN_RIGHT: u16 = 0x111;

pub const BTN_MIDDLE: u16 = 0x112;

pub const BTN_TOOL_FINGER: u16 = 0x145;

pub const BTN_TOOL_QUINTTAP: u16 = 0x148;

pub const BTN_TOUCH: u16 = 0x14a;

pub const BTN_TOOL_DOUBLETAP: u16 = 0x14d;

pub const BTN_TOOL_TRIPLETAP: u16 = 0x14e;

pub const BTN_TOOL_QUADTAP: u16 = 0x14f;

/// An event's type and code, as far as they matter here.
#[derive(Clone, Copy, Debug, PartialEq, Eq, Structural)]
pub enum EventKind {
    Key(u16),
    AbsAxis(u16),
    Other,
}

/// The kind of an event of a type and a code.
pub open spec fn kind_of(event_type: u16, code: u16) -> EventKind {
    if event_type == EV_KEY {
        EventKind::Key(code)
    } else if event_type == EV_ABS {
        EventKind::AbsAxis(code)
    } else {
        EventKind::Other
    }
}

/// Asks `evdev::InputEvent::kind` for the kind of an event.
///
/// The claim: an event of type 1 is a key and one of type 3 an absolute axis, each with
/// the event's own code, and an event of any other type is neither. The kind does not
/// depend on the event's value or time.
#[verifier::external_body]
fn event_kind(event_type: u16, code: u16) -> (kind: EventKind)
    ensures
        kind == kind_of(event_type, code),
{
    match evdev::InputEvent::new(evdev::EventType(event_type), code, 0).kind() {
        evdev::InputEventKind::Key(key) => EventKind::Key(key.code()),
        evdev::InputEventKind::AbsAxis(axis) => EventKind::AbsAxis(axis.0),
        _ => EventKind::Other,
    }
}

/// A mouse button.
#[derive(Clone, Copy, Debug, PartialEq, Eq, Structural)]
pub enum Button {
    Left,
    Right,
    Middle,
}

/// What an event means to the listeners.
#[derive(Clone, Copy, Debug, PartialEq, Eq, Structural)]
pub enum EventClass {
    /// The finger's horizontal position.
    AxisX,
    /// The finger's vertical position.
    AxisY,
    /// A finger came down or was lifted.
    Touch,
    /// A button changed.
    Click(Button),
    /// Two fingers or more came down or were lifted.
    MultiTouch,
    /// Anything else.
    Other,
}

/// The class of an event of a type and a code.
pub open spec fn class_of(event_type: u16, code: u16) -> EventClass {
    match kind_of(event_type, code) {
        EventKind::AbsAxis(axis) => if axis == ABS_X {
            EventClass::AxisX
        } else if axis == ABS_Y {
            EventClass::AxisY
        } else {
            EventClass::Other
        },
        EventKind::Key(key) => if key == BTN_TOUCH {
            EventClass::Touch
        } else if key == BTN_LEFT {
            EventClass::Click(Button::Left)
        } else if key == BTN_RIGHT {
            EventClass::Click(Button::Right)
        } else if key == BTN_MIDDLE {
            EventClass::Click(Button::Middle)
        } else if key == BTN_TOOL_DOUBLETAP || key == BTN_TOOL_TRIPLETAP || key == BTN_TOOL_QUADTAP
            || key == BTN_TOOL_QUINTTAP {
            EventClass::MultiTouch
        } else {
            EventClass::Other
        },
        EventKind::Other => EventClass::Other,
    }
}

/// Classifies an event.
pub fn classify(event_type: u16, code: u16) -> (class: EventClass)
    ensures
        class == class_of(event_type, code),
{
    match event_kind(event_type, code) {
        EventKind::AbsAxis(ABS_X) => EventClass::AxisX,
        EventKind::AbsAxis(ABS_Y) => EventClass::AxisY,
        EventKind::AbsAxis(_) => EventClass::Other,
        EventKind::Key(BTN_TOUCH) => EventClass::Touch,
        EventKind::Key(BTN_LEFT) => EventClass::Click(Button::Left),
        EventKind::Key(BTN_RIGHT) => EventClass::Click(Button::Right),
        EventKind::Key(BTN_MIDDLE) => EventClass::Click(Button::Middle),
        EventKind::Key(
            BTN_TOOL_DOUBLETAP | BTN_TOOL_TRIPLETAP | BTN_TOOL_QUADTAP | BTN_TOOL_QUINTTAP,
        ) => EventClass::MultiTouch,
        EventKind::Key(_) => EventClass::Other,
        EventKind::Other => EventClass::Other,
    }
}

/// Every event belongs to the class that its type and its code call for, and to no other: only
/// keys are touches, clicks or fingers, and only absolute axes are positions.
pub proof fn law_event_classes(event_type: u16, code: u16)
    ensures
        class_of(event_type, code) == EventClass::AxisX <==> event_type == 3 && code == 0,
        class_of(event_type, code) == EventClass::AxisY <==> event_type == 3 && code == 1,
        class_of(event_type, code) == EventClass::Touch <==> event_type == 1 && code == 0x14a,
        class_of(event_type, code) == EventClass::Click(Button::Left) <==> event_type == 1 && code
            == 0x110,
        class_of(event_type, code) == EventClass::Click(Button::Right) <==> event_type == 1
            && code == 0x111,
        class_of(event_type, code) == EventClass::Click(Button::Middle) <==> event_type == 1
            && code == 0x112,
        class_of(event_type, code) == EventClass::MultiTouch <==> event_type == 1 && (code
            == 0x148 || 0x14d <= code <= 0x14f),
{
}

/// The kind of an event keeps its code.
pub proof fn law_kind_keeps_the_code(event_type: u16, code: u16)
    ensures
        kind_of(event_type, code) == EventKind::Key(code) <==> event_type == 1,
        kind_of(event_type, code) == EventKind::AbsAxis(code) <==> event_type == 3,
        kind_of(event_type, code) == EventKind::Other <==> event_type != 1 && event_type != 3,
{
}

} // verus!
