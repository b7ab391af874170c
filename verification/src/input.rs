//! Device input vocabulary shared by the input callbacks.
use vstd::prelude::*;

verus! {

/// Scroll phase of a device scroll gesture.
#[derive(Clone, Copy, PartialEq, Eq, Debug, Structural)]
pub enum ScrollPhase {
    Begin,
    Update,
    End,
}

/// Modifier keys held when a device input event occurred.
#[derive(Clone, Copy, Debug, PartialEq, Eq, Structural)]
pub struct DeviceModifiers {
    pub control: bool,
    pub shift: bool,
    pub alt: bool,
}

impl Default for DeviceModifiers {
    fn default() -> (m: DeviceModifiers)
        ensures
            !m.control && !m.shift && !m.alt,
    {
        DeviceModifiers { control: false, shift: false, alt: false }
    }
}

/// Physical device that produced a scroll (axis) event.
#[derive(Clone, Copy, PartialEq, Eq, Debug, Structural)]
pub enum AxisToolType {
    Mouse,
    Touchpad,
}

/// Phase of an axis event as ArkUI reports it.
#[derive(Clone, Copy, PartialEq, Eq, Debug, Structural)]
pub enum AxisAction {
    Unknown,
    Begin,
    Update,
    End,
    Cancel,
}

/// The scroll phase of an axis action; other actions carry none.
pub fn map_axis_phase(action: AxisAction) -> (p: Option<ScrollPhase>)
    ensures
        p == match action {
            AxisAction::Begin => Some(ScrollPhase::Begin),
            AxisAction::Update => Some(ScrollPhase::Update),
            AxisAction::End => Some(ScrollPhase::End),
            _ => None::<ScrollPhase>,
        },
{
    match action {
        AxisAction::Begin => Some(ScrollPhase::Begin),
        AxisAction::Update => Some(ScrollPhase::Update),
        AxisAction::End => Some(ScrollPhase::End),
        _ => None,
    }
}

/// The scrolling device: a touchpad, or a mouse for every other tool.
pub fn axis_tool_type(is_touchpad: bool) -> (t: AxisToolType)
    ensures
        t == if is_touchpad {
            AxisToolType::Touchpad
        } else {
            AxisToolType::Mouse
        },
{
    if is_touchpad {
        AxisToolType::Touchpad
    } else {
        AxisToolType::Mouse
    }
}

/// The modifiers of an event whose key states could be read, or none held when they
/// could not.
pub fn device_modifiers(states: Option<(bool, bool, bool)>) -> (m: DeviceModifiers)
    ensures
        match states {
            Some((c, s, a)) => m == (DeviceModifiers { control: c, shift: s, alt: a }),
            None => m == (DeviceModifiers { control: false, shift: false, alt: false }),
        },
{
    match states {
        Some((control, shift, alt)) => DeviceModifiers { control, shift, alt },
        None => DeviceModifiers::default(),
    }
}

} // verus!
