//! The input-method (soft keyboard) plugin: the input ArkTS pushes from its
//! `InputMethodController` callbacks becomes the ability's IME input events.
use crate::error::AbilityError;
use crate::plugins::BridgeContextRequirement;
use crate::text::{owned, str_eq};
use vstd::prelude::*;

verus! {

/// The plugin that carries input-method input and session control.
pub struct ImeBridgePlugin;

/// Main-thread event names pushed from ArkTS IME callbacks.
pub const INSERT_TEXT_EVENT: &'static str = "insert-text";

pub const DELETE_LEFT_EVENT: &'static str = "delete-left";

pub const DELETE_RIGHT_EVENT: &'static str = "delete-right";

pub const FUNCTION_KEY_EVENT: &'static str = "function-key";

pub const KEYBOARD_STATUS_EVENT: &'static str = "keyboard-status";

pub const PREVIEW_TEXT_EVENT: &'static str = "preview-text";

/// Async actions sent to ArkTS.
pub const ATTACH_ACTION: &'static str = "attach";

pub const DETACH_ACTION: &'static str = "detach";

pub const UPDATE_CURSOR_ACTION: &'static str = "update-cursor";

/// Which IME event ArkTS pushed.
#[derive(Clone, Copy, Debug, PartialEq, Eq, Structural)]
pub enum ImeEventKind {
    InsertText,
    DeleteLeft,
    DeleteRight,
    FunctionKey,
    KeyboardStatus,
    PreviewText,
}

/// The IME event named `name`, if the plugin handles it.
pub open spec fn spec_ime_event_kind(name: Seq<char>) -> Option<ImeEventKind> {
    if name == INSERT_TEXT_EVENT@ {
        Some(ImeEventKind::InsertText)
    } else if name == DELETE_LEFT_EVENT@ {
        Some(ImeEventKind::DeleteLeft)
    } else if name == DELETE_RIGHT_EVENT@ {
        Some(ImeEventKind::DeleteRight)
    } else if name == FUNCTION_KEY_EVENT@ {
        Some(ImeEventKind::FunctionKey)
    } else if name == KEYBOARD_STATUS_EVENT@ {
        Some(ImeEventKind::KeyboardStatus)
    } else if name == PREVIEW_TEXT_EVENT@ {
        Some(ImeEventKind::PreviewText)
    } else {
        None
    }
}

impl ImeBridgePlugin {
    /// Plugin id.
    pub const ID: &'static str = "ohos.ime";

    /// Name on the bridge of the cursor-rectangle request of `update-cursor`, whose
    /// floating-point payload the platform layer carries.
    pub const CURSOR_REQUEST_TYPE_NAME: &'static str = "ohos.ime.CursorRequest";

    /// Contexts the ArkTS side needs.
    pub fn required_contexts() -> (r: Vec<BridgeContextRequirement>)
        ensures
            r@ == seq![BridgeContextRequirement::UiContext],
    {
        vec![BridgeContextRequirement::UiContext]
    }

    /// The kind of the main-thread event `name`; any other name is refused.
    pub fn event_kind(name: &str) -> (r: Result<ImeEventKind, AbilityError>)
        ensures
            match spec_ime_event_kind(name@) {
                Some(k) => r == Ok::<ImeEventKind, AbilityError>(k),
                None => r matches Err(AbilityError::UnsupportedEvent { plugin, event })
                    && plugin@ == Self::ID@ && event@ == name@,
            },
    {
        if str_eq(name, INSERT_TEXT_EVENT) {
            Ok(ImeEventKind::InsertText)
        } else if str_eq(name, DELETE_LEFT_EVENT) {
            Ok(ImeEventKind::DeleteLeft)
        } else if str_eq(name, DELETE_RIGHT_EVENT) {
            Ok(ImeEventKind::DeleteRight)
        } else if str_eq(name, FUNCTION_KEY_EVENT) {
            Ok(ImeEventKind::FunctionKey)
        } else if str_eq(name, KEYBOARD_STATUS_EVENT) {
            Ok(ImeEventKind::KeyboardStatus)
        } else if str_eq(name, PREVIEW_TEXT_EVENT) {
            Ok(ImeEventKind::PreviewText)
        } else {
            Err(AbilityError::UnsupportedEvent { plugin: owned(Self::ID), event: owned(name) })
        }
    }
}

/// Text committed by the input method.
#[derive(Clone, Debug)]
pub struct TextInputEventData {
    pub text: String,
}

/// Soft keyboard visibility reported by the input method.
#[derive(Clone, Copy, Debug, PartialEq, Eq, Structural)]
pub enum KeyboardStatus {
    /// The input method reports no keyboard status.
    Unset,
    Hide,
    Show,
}

/// The keyboard status an input-method status code stands for (0 none, 1 hide,
/// 2 show).
pub open spec fn spec_keyboard_status(code: u32) -> KeyboardStatus {
    if code == 0 {
        KeyboardStatus::Unset
    } else if code == 1 {
        KeyboardStatus::Hide
    } else {
        KeyboardStatus::Show
    }
}

/// The keyboard status of a status code the input method defines.
pub fn keyboard_status_from_code(code: u32) -> (s: KeyboardStatus)
    requires
        code <= 2,
    ensures
        s == spec_keyboard_status(code),
{
    if code == 0 {
        KeyboardStatus::Unset
    } else if code == 1 {
        KeyboardStatus::Hide
    } else {
        KeyboardStatus::Show
    }
}

/// An input-method event delivered to the ability's event loop.
#[derive(Clone, Debug)]
pub enum ImeEvent {
    TextInputEvent(TextInputEventData),
    BackspaceEvent(i32),
    ImeStatusEvent(KeyboardStatus),
    EnterEvent(i32),
    DeleteRightEvent(i32),
}

/// Payload of `insert-text`.
#[derive(Clone, Debug)]
pub struct ImeInsertText {
    pub text: String,
}

impl ImeInsertText {
    pub const TYPE_NAME: &'static str = "ohos.ime.InsertText";
}

/// Payload of `delete-left`.
#[derive(Clone, Copy, Debug)]
pub struct ImeDeleteLeft {
    pub length: i32,
}

impl ImeDeleteLeft {
    pub const TYPE_NAME: &'static str = "ohos.ime.DeleteLeft";
}

/// Payload of `delete-right`.
#[derive(Clone, Copy, Debug)]
pub struct ImeDeleteRight {
    pub length: i32,
}

impl ImeDeleteRight {
    pub const TYPE_NAME: &'static str = "ohos.ime.DeleteRight";
}

/// Payload of `function-key`.
#[derive(Clone, Copy, Debug)]
pub struct ImeFunctionKey {
    pub key: i32,
}

impl ImeFunctionKey {
    pub const TYPE_NAME: &'static str = "ohos.ime.FunctionKey";
}

/// Payload of `keyboard-status`.
#[derive(Clone, Copy, Debug)]
pub struct ImeKeyboardStatus {
    pub status: i32,
}

impl ImeKeyboardStatus {
    pub const TYPE_NAME: &'static str = "ohos.ime.KeyboardStatus";
}

/// Payload of `preview-text`.
#[derive(Clone, Debug)]
pub struct ImePreviewText {
    pub text: String,
    pub start: i32,
    pub end: i32,
}

impl ImePreviewText {
    pub const TYPE_NAME: &'static str = "ohos.ime.PreviewText";
}

/// Acknowledgement returned for every main-thread IME event.
///
/// For `attach`, `accepted` reports whether the session is really bound.
#[derive(Clone, Copy, Debug)]
pub struct ImeAck {
    pub accepted: bool,
}

impl ImeAck {
    pub const TYPE_NAME: &'static str = "ohos.ime.Ack";
}

/// Request of the `attach` action.
#[derive(Clone, Copy, Debug)]
pub struct ImeAttachRequest {}

impl ImeAttachRequest {
    pub const TYPE_NAME: &'static str = "ohos.ime.AttachRequest";
}

/// Request of the `detach` action.
#[derive(Clone, Copy, Debug)]
pub struct ImeDetachRequest {}

impl ImeDetachRequest {
    pub const TYPE_NAME: &'static str = "ohos.ime.DetachRequest";
}

/// A decoded main-thread IME event.
#[derive(Clone, Debug)]
pub enum ImeRequest {
    InsertText(ImeInsertText),
    DeleteLeft(ImeDeleteLeft),
    DeleteRight(ImeDeleteRight),
    FunctionKey(ImeFunctionKey),
    KeyboardStatus(ImeKeyboardStatus),
    PreviewText(ImePreviewText),
}

/// Whether the input method defines the status code of a `keyboard-status` event.
pub open spec fn request_is_valid(request: ImeRequest) -> bool {
    match request {
        ImeRequest::KeyboardStatus(s) => 0 <= s.status <= 2,
        _ => true,
    }
}

/// A delete length clamped at zero, so a malformed negative value deletes nothing.
pub open spec fn clamp_length(length: i32) -> i32 {
    if length < 0 {
        0
    } else {
        length
    }
}

impl ImeBridgePlugin {
    /// The ability input event an IME event becomes. Preview (composition) text is
    /// advisory and produces none; delete lengths are clamped at zero.
    pub fn input_event(request: ImeRequest) -> (r: Option<ImeEvent>)
        requires
            request_is_valid(request),
        ensures
            match request {
                ImeRequest::InsertText(t) => r matches Some(ImeEvent::TextInputEvent(d))
                    && d.text@ == t.text@,
                ImeRequest::DeleteLeft(d) => r == Some(
                    ImeEvent::BackspaceEvent(clamp_length(d.length)),
                ),
                ImeRequest::DeleteRight(d) => r == Some(
                    ImeEvent::DeleteRightEvent(clamp_length(d.length)),
                ),
                ImeRequest::FunctionKey(k) => r == Some(ImeEvent::EnterEvent(k.key)),
                ImeRequest::KeyboardStatus(s) => r == Some(
                    ImeEvent::ImeStatusEvent(spec_keyboard_status(s.status as u32)),
                ),
                ImeRequest::PreviewText(_) => r is None,
            },
    {
        match request {
            ImeRequest::InsertText(t) => Some(
                ImeEvent::TextInputEvent(TextInputEventData { text: t.text }),
            ),
            ImeRequest::DeleteLeft(d) => {
                let length = if d.length < 0 {
                    0
                } else {
                    d.length
                };
                Some(ImeEvent::BackspaceEvent(length))
            },
            ImeRequest::DeleteRight(d) => {
                let length = if d.length < 0 {
                    0
                } else {
                    d.length
                };
                Some(ImeEvent::DeleteRightEvent(length))
            },
            ImeRequest::FunctionKey(k) => Some(ImeEvent::EnterEvent(k.key)),
            ImeRequest::KeyboardStatus(s) => Some(
                ImeEvent::ImeStatusEvent(keyboard_status_from_code(s.status as u32)),
            ),
            ImeRequest::PreviewText(_) => None,
        }
    }

    /// The acknowledgement of a handled main-thread event.
    pub fn ack() -> (a: ImeAck)
        ensures
            a.accepted,
    {
        ImeAck { accepted: true }
    }
}

} // verus!
