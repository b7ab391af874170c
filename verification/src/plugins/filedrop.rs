//! The external file-drop plugin: ArkTS pushes the drag-and-drop stream
//! (`drag-enter`, `drag-move`, `drop-files`) which is forwarded to a handler.
use crate::error::AbilityError;
use crate::plugins::{clear_slot, fill_slot, BridgeContextRequirement};
use crate::text::{owned, str_eq};
use vstd::prelude::*;

verus! {

/// Main-thread event names pushed by ArkTS.
pub const DRAG_ENTER_EVENT: &'static str = "drag-enter";

pub const DRAG_MOVE_EVENT: &'static str = "drag-move";

pub const DROP_FILES_EVENT: &'static str = "drop-files";

/// Which drag-and-drop event ArkTS pushed.
#[derive(Clone, Copy, Debug, PartialEq, Eq, Structural)]
pub enum FileDropEventKind {
    /// The drag entered the window.
    Enter,
    /// The drag moved; carries the pointer position.
    Move,
    /// The files were released; carries their URIs and the drop position.
    Drop,
}

/// The drag-and-drop event named `name`, if the plugin handles it.
pub open spec fn spec_filedrop_event_kind(name: Seq<char>) -> Option<FileDropEventKind> {
    if name == DRAG_ENTER_EVENT@ {
        Some(FileDropEventKind::Enter)
    } else if name == DRAG_MOVE_EVENT@ {
        Some(FileDropEventKind::Move)
    } else if name == DROP_FILES_EVENT@ {
        Some(FileDropEventKind::Drop)
    } else {
        None
    }
}

/// Acknowledgement of a drag/drop event.
#[derive(Clone, Copy, Debug)]
pub struct DropAck {
    pub accepted: bool,
}

impl DropAck {
    /// Name of this payload on the bridge.
    pub const TYPE_NAME: &'static str = "ohos.filedrop.DropAck";
}

/// The plugin that forwards external file drops.
pub struct FileDropBridgePlugin;

impl FileDropBridgePlugin {
    /// Plugin id.
    pub const ID: &'static str = "ohos.filedrop";

    /// Contexts the ArkTS side needs.
    pub fn required_contexts() -> (r: Vec<BridgeContextRequirement>)
        ensures
            r@ == seq![BridgeContextRequirement::UiContext],
    {
        vec![BridgeContextRequirement::UiContext]
    }

    /// The kind of the main-thread event `name`; any other name is refused.
    pub fn event_kind(name: &str) -> (r: Result<FileDropEventKind, AbilityError>)
        ensures
            match spec_filedrop_event_kind(name@) {
                Some(k) => r == Ok::<FileDropEventKind, AbilityError>(k),
                None => r matches Err(AbilityError::UnsupportedEvent { plugin, event })
                    && plugin@ == Self::ID@ && event@ == name@,
            },
    {
        if str_eq(name, DRAG_ENTER_EVENT) {
            Ok(FileDropEventKind::Enter)
        } else if str_eq(name, DRAG_MOVE_EVENT) {
            Ok(FileDropEventKind::Move)
        } else if str_eq(name, DROP_FILES_EVENT) {
            Ok(FileDropEventKind::Drop)
        } else {
            Err(AbilityError::UnsupportedEvent { plugin: owned(Self::ID), event: owned(name) })
        }
    }

    /// The acknowledgement of a handled event.
    pub fn ack() -> (a: DropAck)
        ensures
            a.accepted,
    {
        DropAck { accepted: true }
    }
}

/// Registers the file-drop handler, replacing any previous one.
pub fn set_filedrop_callback<F>(slot: &mut Option<F>, callback: F)
    ensures
        *final(slot) == Some(callback),
{
    fill_slot(slot, callback);
}

/// Clears the file-drop handler, when the window that owns it is destroyed.
pub fn clear_filedrop_callback<F>(slot: &mut Option<F>)
    ensures
        *final(slot) is None,
{
    clear_slot(slot);
}

} // verus!
