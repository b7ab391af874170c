//! Capability plugins that travel over the ArkTS bridge, and what they share.
use vstd::prelude::*;

pub mod cursor;
pub mod filedrop;
pub mod filelaunch;
pub mod ime;
pub mod openbysys;
pub mod pinch;

verus! {

/// A context an ArkTS plugin needs before it can serve calls.
#[derive(Clone, Copy, Debug, PartialEq, Eq, Structural)]
pub enum BridgeContextRequirement {
    /// The UIAbility context.
    Ability,
    /// The window stage.
    WindowStage,
    /// The UI context of the window.
    UiContext,
}

/// Empties a callback slot, so no further event reaches the old handler.
pub fn clear_slot<F>(slot: &mut Option<F>)
    ensures
        *final(slot) is None,
{
    *slot = None;
}

/// Fills a callback slot, replacing any previous handler.
pub fn fill_slot<F>(slot: &mut Option<F>, callback: F)
    ensures
        *final(slot) == Some(callback),
{
    *slot = Some(callback);
}

} // verus!
