//! The pinch-gesture plugin: ArkTS pushes `pinch-begin` / `pinch-update` /
//! `pinch-end` samples carrying the cumulative scale of the gesture.
use crate::error::AbilityError;
use crate::plugins::{clear_slot, fill_slot, BridgeContextRequirement};
use crate::text::{owned, str_eq};
use vstd::prelude::*;

verus! {

/// Main-thread event names pushed by ArkTS.
pub const PINCH_BEGIN_EVENT: &'static str = "pinch-begin";

pub const PINCH_UPDATE_EVENT: &'static str = "pinch-update";

pub const PINCH_END_EVENT: &'static str = "pinch-end";

/// Phase of a pinch gesture.
#[derive(Clone, Copy, Debug, PartialEq, Eq, Structural)]
pub enum PinchPhase {
    Begin,
    Update,
    End,
}

/// The gesture phase of the event named `name`, if the plugin handles it.
pub open spec fn spec_pinch_phase(name: Seq<char>) -> Option<PinchPhase> {
    if name == PINCH_BEGIN_EVENT@ {
        Some(PinchPhase::Begin)
    } else if name == PINCH_UPDATE_EVENT@ {
        Some(PinchPhase::Update)
    } else if name == PINCH_END_EVENT@ {
        Some(PinchPhase::End)
    } else {
        None
    }
}

/// Acknowledgement of a pinch event.
#[derive(Clone, Copy, Debug)]
pub struct PinchAck {
    pub accepted: bool,
}

impl PinchAck {
    /// Name of this payload on the bridge.
    pub const TYPE_NAME: &'static str = "ohos.pinch.PinchAck";
}

/// The plugin that forwards pinch gestures.
pub struct PinchBridgePlugin;

impl PinchBridgePlugin {
    /// Plugin id.
    pub const ID: &'static str = "ohos.pinch";

    /// Contexts the ArkTS side needs.
    pub fn required_contexts() -> (r: Vec<BridgeContextRequirement>)
        ensures
            r@ == seq![BridgeContextRequirement::UiContext],
    {
        vec![BridgeContextRequirement::UiContext]
    }

    /// The phase of the main-thread event `name`; any other name is refused.
    pub fn phase_of(name: &str) -> (r: Result<PinchPhase, AbilityError>)
        ensures
            match spec_pinch_phase(name@) {
                Some(p) => r == Ok::<PinchPhase, AbilityError>(p),
                None => r matches Err(AbilityError::UnsupportedEvent { plugin, event })
                    && plugin@ == Self::ID@ && event@ == name@,
            },
    {
        if str_eq(name, PINCH_BEGIN_EVENT) {
            Ok(PinchPhase::Begin)
        } else if str_eq(name, PINCH_UPDATE_EVENT) {
            Ok(PinchPhase::Update)
        } else if str_eq(name, PINCH_END_EVENT) {
            Ok(PinchPhase::End)
        } else {
            Err(AbilityError::UnsupportedEvent { plugin: owned(Self::ID), event: owned(name) })
        }
    }

    /// The acknowledgement of a handled event.
    pub fn ack() -> (a: PinchAck)
        ensures
            a.accepted,
    {
        PinchAck { accepted: true }
    }
}

/// Registers the pinch handler, replacing any previous one.
pub fn set_pinch_callback<F>(slot: &mut Option<F>, callback: F)
    ensures
        *final(slot) == Some(callback),
{
    fill_slot(slot, callback);
}

/// Clears the pinch handler, when the window that owns it is destroyed.
pub fn clear_pinch_callback<F>(slot: &mut Option<F>)
    ensures
        *final(slot) is None,
{
    clear_slot(slot);
}

} // verus!
