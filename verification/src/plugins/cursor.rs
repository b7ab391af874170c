//! The mouse-cursor plugin. The main window's id can only be obtained from ArkTS, so
//! the plugin receives it once on the `window-id` event and forgets it when the window
//! stage is destroyed; every cursor-style change then addresses that window.
use crate::error::AbilityError;
use crate::plugins::BridgeContextRequirement;
use crate::text::{owned, str_eq};
use vstd::prelude::*;

verus! {

/// Name of the window-stage main-thread event that carries the window id.
pub const WINDOW_ID_EVENT: &'static str = "window-id";

/// Pointer-style result code of a successful system call.
pub const INPUT_SUCCESS: i32 = 0;

/// The plugin that sets the system mouse cursor of the main window.
pub struct CursorBridgePlugin;

/// Acknowledgement of the `window-id` event.
#[derive(Clone, Copy, Debug)]
pub struct WindowIdResponse {
    pub accepted: bool,
}

impl WindowIdResponse {
    /// Name of this payload on the bridge.
    pub const TYPE_NAME: &'static str = "ohos.cursor.WindowIdResponse";
}

/// The window the cursor plugin addresses.
pub struct CursorState {
    window_id: Option<i32>,
}

impl CursorState {
    /// The main-window id pushed by ArkTS, while the window stage lives.
    pub closed spec fn spec_window_id(self) -> Option<i32> {
        self.window_id
    }

    /// No window id received yet.
    pub fn new() -> (s: Self)
        ensures
            s.spec_window_id() is None,
    {
        CursorState { window_id: None }
    }

    /// The main-window id, if ArkTS has pushed it.
    pub fn window_id(&self) -> (id: Option<i32>)
        ensures
            id == self.spec_window_id(),
    {
        self.window_id
    }

    /// Sets the system cursor style of the main window. Without a window id this does
    /// nothing and reports `false`; otherwise `set_pointer_style` makes the system call
    /// with the window id and `style`, and the result is whether it returned
    /// `INPUT_SUCCESS`.
    pub fn set_cursor_style<F: FnOnce(i32, i32) -> i32>(&self, style: i32, set_pointer_style: F) -> (ok:
        bool)
        requires
            forall|w: i32| self.spec_window_id() == Some(w) ==> call_requires(set_pointer_style, (w, style)),
        ensures
            match self.spec_window_id() {
                None => !ok,
                Some(w) => exists|code: i32|
                    call_ensures(set_pointer_style, (w, style), code) && ok == (code
                        == INPUT_SUCCESS),
            },
    {
        match self.window_id {
            Some(window_id) => {
                let code = set_pointer_style(window_id, style);
                code == INPUT_SUCCESS
            },
            None => false,
        }
    }
}

impl CursorBridgePlugin {
    /// Plugin id.
    pub const ID: &'static str = "ohos.cursor";

    /// Contexts the ArkTS side needs.
    pub fn required_contexts() -> (r: Vec<BridgeContextRequirement>)
        ensures
            r@ == seq![BridgeContextRequirement::WindowStage],
    {
        vec![BridgeContextRequirement::WindowStage]
    }

    /// Handles the main-thread event `name` carrying `window_id`: the `window-id`
    /// event records the id and is accepted; any other event is refused and changes
    /// nothing.
    pub fn on_main_thread_event(state: &mut CursorState, name: &str, window_id: i32) -> (r: Result<
        WindowIdResponse,
        AbilityError,
    >)
        ensures
            name@ == WINDOW_ID_EVENT@ ==> (r matches Ok(resp) && resp.accepted)
                && final(state).spec_window_id() == Some(window_id),
            name@ != WINDOW_ID_EVENT@ ==> (r matches Err(AbilityError::UnsupportedEvent {
                plugin,
                event,
            }) && plugin@ == Self::ID@ && event@ == name@) && final(state).spec_window_id()
                == old(state).spec_window_id(),
    {
        if str_eq(name, WINDOW_ID_EVENT) {
            state.window_id = Some(window_id);
            Ok(WindowIdResponse { accepted: true })
        } else {
            Err(AbilityError::UnsupportedEvent { plugin: owned(Self::ID), event: owned(name) })
        }
    }

    /// The window stage was destroyed: the window id is forgotten.
    pub fn on_window_stage_destroyed(state: &mut CursorState)
        ensures
            final(state).spec_window_id() is None,
    {
        state.window_id = None;
    }
}

/// Sets the system mouse cursor style of an application's main window.
pub trait CursorExt {
    /// `style` is an OHOS `Input_PointerStyle` value; the result says whether the
    /// system call succeeded.
    fn set_cursor_style(&self, style: i32) -> bool;
}

} // verus!
