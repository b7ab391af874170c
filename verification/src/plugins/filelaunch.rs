//! The file-launch plugin: when the system opens files with the application, ArkTS
//! forwards their URIs on the `file-launch` event.
use crate::error::AbilityError;
use crate::plugins::{clear_slot, fill_slot, BridgeContextRequirement};
use crate::text::{owned, str_eq};
use vstd::prelude::*;

verus! {

/// Main-thread event name pushed by ArkTS.
pub const FILE_LAUNCH_EVENT: &'static str = "file-launch";

/// File URIs the system asked the application to open.
#[derive(Clone, Debug)]
pub struct FileLaunchData {
    pub uris: Vec<String>,
}

impl FileLaunchData {
    /// Name of this payload on the bridge.
    pub const TYPE_NAME: &'static str = "ohos.filelaunch.FileLaunchData";
}

/// Acknowledgement of a file-launch event.
#[derive(Clone, Copy, Debug)]
pub struct FileLaunchAck {
    pub accepted: bool,
}

impl FileLaunchAck {
    /// Name of this payload on the bridge.
    pub const TYPE_NAME: &'static str = "ohos.filelaunch.FileLaunchAck";
}

/// The plugin that forwards launched files.
pub struct FileLaunchBridgePlugin;

impl FileLaunchBridgePlugin {
    /// Plugin id.
    pub const ID: &'static str = "ohos.filelaunch";

    /// Contexts the ArkTS side needs.
    pub fn required_contexts() -> (r: Vec<BridgeContextRequirement>)
        ensures
            r@ == seq![BridgeContextRequirement::UiContext],
    {
        vec![BridgeContextRequirement::UiContext]
    }

    /// Accepts the `file-launch` event and refuses every other name.
    pub fn check_event(name: &str) -> (r: Result<(), AbilityError>)
        ensures
            name@ == FILE_LAUNCH_EVENT@ ==> r is Ok,
            name@ != FILE_LAUNCH_EVENT@ ==> (r matches Err(AbilityError::UnsupportedEvent {
                plugin,
                event,
            }) && plugin@ == Self::ID@ && event@ == name@),
    {
        if str_eq(name, FILE_LAUNCH_EVENT) {
            Ok(())
        } else {
            Err(AbilityError::UnsupportedEvent { plugin: owned(Self::ID), event: owned(name) })
        }
    }

    /// The acknowledgement of a handled event.
    pub fn ack() -> (a: FileLaunchAck)
        ensures
            a.accepted,
    {
        FileLaunchAck { accepted: true }
    }
}

/// Registers the file-launch handler, replacing any previous one.
pub fn set_filelaunch_callback<F>(slot: &mut Option<F>, callback: F)
    ensures
        *final(slot) == Some(callback),
{
    fill_slot(slot, callback);
}

/// Clears the file-launch handler.
pub fn clear_filelaunch_callback<F>(slot: &mut Option<F>)
    ensures
        *final(slot) is None,
{
    clear_slot(slot);
}

} // verus!
