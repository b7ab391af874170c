//! Main-window and ability actions that only ArkTS can perform. The ArkTS host hands
//! its closures over once per ability session; native code dispatches to them and
//! learns whether they were registered.
use vstd::prelude::*;

verus! {

/// The ArkTS-side main-window actions.
pub struct WindowActions<F> {
    pub minimize: F,
    pub show_and_focus: F,
}

/// The ArkTS-side ability actions.
pub struct AbilityActions<F> {
    pub terminate: F,
}

/// Which main-window action to dispatch.
#[derive(Clone, Copy, Debug, PartialEq, Eq, Structural)]
pub enum WindowAction {
    Minimize,
    ShowAndFocus,
}

/// The ArkTS closure of `action`.
pub open spec fn spec_select<F>(actions: WindowActions<F>, action: WindowAction) -> F {
    match action {
        WindowAction::Minimize => actions.minimize,
        WindowAction::ShowAndFocus => actions.show_and_focus,
    }
}

/// Dispatches `action` to ArkTS through `call`, which invokes the registered closure.
/// Returns `false`, without a call, when ArkTS has not registered its actions yet.
pub fn dispatch_window_action<F, C: FnOnce(&F)>(
    actions: Option<&WindowActions<F>>,
    action: WindowAction,
    call: C,
) -> (dispatched: bool)
    requires
        forall|f: &F| call_requires(call, (f,)),
    ensures
        dispatched == actions is Some,
        actions matches Some(a) ==> call_ensures(call, (&spec_select(*a, action),), ()),
{
    match actions {
        Some(a) => {
            let target = match action {
                WindowAction::Minimize => &a.minimize,
                WindowAction::ShowAndFocus => &a.show_and_focus,
            };
            call(target);
            true
        },
        None => false,
    }
}

/// Minimizes the ability's main window. Returns `false` when ArkTS has not registered
/// its window actions yet.
pub fn minimize_main_window<F, C: FnOnce(&F)>(actions: Option<&WindowActions<F>>, call: C) -> (dispatched:
    bool)
    requires
        forall|f: &F| call_requires(call, (f,)),
    ensures
        dispatched == actions is Some,
        actions matches Some(a) ==> call_ensures(call, (&a.minimize,), ()),
{
    dispatch_window_action(actions, WindowAction::Minimize, call)
}

/// Brings the main window back from the minimized state and focuses it. Returns
/// `false` when ArkTS has not registered its window actions yet.
pub fn show_and_focus_main_window<F, C: FnOnce(&F)>(
    actions: Option<&WindowActions<F>>,
    call: C,
) -> (dispatched: bool)
    requires
        forall|f: &F| call_requires(call, (f,)),
    ensures
        dispatched == actions is Some,
        actions matches Some(a) ==> call_ensures(call, (&a.show_and_focus,), ()),
{
    dispatch_window_action(actions, WindowAction::ShowAndFocus, call)
}

/// Finishes the ability through `call`, so the application closes instead of staying
/// alive without a window. Returns `false` when ArkTS has not registered its ability
/// actions yet.
pub fn terminate_ability<F, C: FnOnce(&F)>(actions: Option<&AbilityActions<F>>, call: C) -> (dispatched:
    bool)
    requires
        forall|f: &F| call_requires(call, (f,)),
    ensures
        dispatched == actions is Some,
        actions matches Some(a) ==> call_ensures(call, (&a.terminate,), ()),
{
    match actions {
        Some(a) => {
            call(&a.terminate);
            true
        },
        None => false,
    }
}

} // verus!
