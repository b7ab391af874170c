use openharmony_ability::app::{
    color_mode_from_code, end_bridge_session, intercepts_back_press, AbilityInitContext,
    AvoidAreaType, BridgeSession, ColorMode, FrameCallbackGate, OpenHarmonyAppInner, Rect,
};
use openharmony_ability::error::AbilityError;

type Inner = OpenHarmonyAppInner<u8, u8, ()>;

#[test]
fn render_owner_rejects_overlap_and_ignores_stale_surface_callbacks() {
    let mut inner = Inner::new(0);
    inner.claim_render_owner("owner-a").unwrap();
    assert!(inner.claim_render_owner("owner-b").is_err());
    assert!(!inner.activate_surface("owner-b", None, Rect::default()));
    assert!(inner.activate_surface("owner-a", None, Rect::default()));
    assert_eq!(inner.release_render_owner("owner-b"), None);
    assert_eq!(inner.release_render_owner("owner-a"), Some(true));

    inner.claim_render_owner("owner-b").unwrap();
    assert!(inner.activate_surface("owner-b", None, Rect::default()));
    assert!(!inner.deactivate_surface("owner-a"));
    assert_eq!(inner.release_render_owner("owner-a"), None);
    assert!(inner.owns_render("owner-b"));
    assert!(inner.is_surface_active("owner-b"));
}

#[test]
fn surface_recreation_keeps_the_same_render_owner() {
    let mut inner = Inner::new(0);
    inner.claim_render_owner("owner").unwrap();
    assert!(inner.activate_surface("owner", None, Rect::default()));
    assert!(inner.deactivate_surface("owner"));
    assert!(inner.owns_render("owner"));
    assert!(inner.activate_surface("owner", None, Rect::default()));
    assert_eq!(inner.release_render_owner("owner"), Some(true));
}

#[test]
fn releasing_a_component_clears_its_window_scoped_cache() {
    let mut inner = Inner::new(0);
    inner.claim_render_owner("owner").unwrap();
    inner.set_window_rect(Rect {
        top: 1,
        left: 2,
        width: 3,
        height: 4,
    });
    inner.set_avoid_area(AvoidAreaType::Keyboard, ());

    assert_eq!(inner.release_render_owner("owner"), Some(false));
    assert_eq!(inner.window_rect(), Rect::default());
    assert!(inner.avoid_areas().is_empty());
}

#[test]
fn claim_error_is_the_active_owner_error() {
    let mut inner = Inner::new(3);
    assert_eq!(inner.id(), 3);
    inner.claim_render_owner("a").unwrap();
    assert_eq!(inner.claim_render_owner("b"), Err(AbilityError::RenderOwnerActive));
    assert!(inner.owns_render("a"));
    assert!(!inner.owns_render("b"));
}

#[test]
fn surface_callbacks_update_window_and_rect() {
    let mut inner = Inner::new(0);
    let rect = Rect {
        top: 10,
        left: 20,
        width: 300,
        height: 400,
    };
    inner.claim_render_owner("o").unwrap();
    assert!(!inner.update_surface_rect("o", rect));
    assert!(inner.activate_surface("o", Some(7), rect));
    assert_eq!(inner.native_window(), Some(7));
    assert_eq!(inner.content_rect(), rect);
    // A second create while the surface is alive is ignored.
    assert!(!inner.activate_surface("o", Some(8), Rect::default()));
    let moved = Rect {
        top: 0,
        left: 0,
        width: 50,
        height: 60,
    };
    assert!(inner.update_surface_rect("o", moved));
    assert_eq!(inner.content_rect(), moved);
    assert!(inner.deactivate_surface("o"));
    assert_eq!(inner.native_window(), None);
    assert_eq!(inner.content_rect(), Rect::default());
    assert!(!inner.deactivate_surface("o"));
}

#[test]
fn begin_render_needs_a_bridge_session() {
    let mut inner = Inner::new(0);
    assert_eq!(
        inner.begin_render(false, "o", 1),
        Err(AbilityError::RenderOutsideSession)
    );
    assert!(!inner.owns_render("o"));
    assert!(inner.begin_render(true, "o", 1).is_ok());
    assert_eq!(*inner.xcomponent(), Some(1));
    assert_eq!(
        inner.begin_render(true, "p", 2),
        Err(AbilityError::RenderOwnerActive)
    );
    assert_eq!(inner.release_render_owner("o"), Some(false));
    assert_eq!(*inner.xcomponent(), None);
}

#[test]
fn avoid_areas_are_kept_per_type() {
    let mut inner: OpenHarmonyAppInner<u8, u8, u32> = OpenHarmonyAppInner::new(0);
    assert_eq!(inner.avoid_area(AvoidAreaType::Keyboard), None);
    inner.set_avoid_area(AvoidAreaType::Keyboard, 5);
    inner.set_avoid_area(AvoidAreaType::System, 6);
    inner.set_avoid_area(AvoidAreaType::Keyboard, 7);
    assert_eq!(inner.avoid_area(AvoidAreaType::Keyboard), Some(7));
    assert_eq!(inner.avoid_area(AvoidAreaType::System), Some(6));
    assert_eq!(inner.avoid_area(AvoidAreaType::Cutout), None);
    assert_eq!(inner.avoid_areas().len(), 2);
}

#[test]
fn saved_state_is_loaded_only_while_saving_is_on() {
    let mut inner = Inner::new(0);
    assert_eq!(inner.load(), None);
    inner.save(vec![1, 2, 3]);
    assert_eq!(inner.load(), None);
    inner.set_save_state(true);
    assert_eq!(inner.load(), Some(vec![1, 2, 3]));
    inner.save(vec![4]);
    assert_eq!(inner.load(), Some(vec![4]));
}

#[test]
fn init_context_round_trips() {
    let mut inner = Inner::new(0);
    let context = inner.init_context();
    assert!(context.module_name.is_none() && context.color_mode.is_none());
    let mut context = AbilityInitContext::default();
    context.module_name = Some("entry".to_string());
    context.color_mode = Some(0);
    context.home_directory = Some("/data/home".to_string());
    inner.set_init_context(context);
    let read = inner.init_context();
    assert_eq!(read.module_name.as_deref(), Some("entry"));
    assert_eq!(read.color_mode, Some(0));
    assert_eq!(read.home_directory.as_deref(), Some("/data/home"));
    assert_eq!(read.base_path, None);
}

#[test]
fn bridge_session_has_one_owner_and_ignores_stale_release() {
    let mut session: BridgeSession<u32> = BridgeSession::new();
    assert!(!session.is_active());
    assert_eq!(session.endpoints(), Err(AbilityError::BridgeNotReady));
    assert_eq!(session.begin("", 1), Err(AbilityError::EmptySessionOwner));
    assert!(session.begin("ability-1", 1).is_ok());
    assert_eq!(session.begin("ability-2", 2), Err(AbilityError::SessionActive));
    assert_eq!(session.endpoints(), Ok(&1));
    assert_eq!(session.release("ability-0"), None);
    assert!(session.is_active());
    assert_eq!(session.release("ability-1"), Some(1));
    assert!(!session.is_active());
    assert!(session.begin("ability-2", 2).is_ok());
    assert_eq!(session.endpoints(), Ok(&2));
}

#[test]
fn error_reasons_match_the_reported_messages() {
    assert_eq!(
        AbilityError::RenderOwnerActive.reason(),
        "This native module already has an active DefaultXComponent render owner"
    );
    assert_eq!(
        AbilityError::BridgeNotReady.reason(),
        "Bridge runtime is not ready. Call it during an active NativeAbility session."
    );
    assert_eq!(
        AbilityError::UnsupportedEvent {
            plugin: "ohos.ime".to_string(),
            event: "bogus".to_string()
        }
        .reason(),
        "Unsupported ohos.ime main-thread event 'bogus'"
    );
}

#[test]
fn init_context_seeds_the_colour_mode() {
    let mut inner = Inner::new(0);
    assert_eq!(inner.color_mode(), ColorMode::Light);
    let mut context = AbilityInitContext::default();
    context.color_mode = Some(0);
    inner.set_init_context(context);
    assert_eq!(inner.color_mode(), ColorMode::Dark);
    // A context without a colour mode keeps the appearance seeded earlier.
    inner.set_init_context(AbilityInitContext::default());
    assert_eq!(inner.color_mode(), ColorMode::Dark);
    assert_eq!(color_mode_from_code(1), ColorMode::Light);
    assert_eq!(color_mode_from_code(-1), ColorMode::NoSet);
}

#[test]
fn ending_the_owning_session_clears_the_init_context() {
    let mut inner = Inner::new(0);
    let mut session: BridgeSession<u32> = BridgeSession::new();
    assert!(session.begin("ability-1", 7).is_ok());
    let mut context = AbilityInitContext::default();
    context.module_name = Some("entry".to_string());
    context.color_mode = Some(0);
    inner.set_init_context(context);
    assert_eq!(end_bridge_session(&mut session, &mut inner, "ability-0"), None);
    assert_eq!(inner.init_context().module_name.as_deref(), Some("entry"));
    assert_eq!(end_bridge_session(&mut session, &mut inner, "ability-1"), Some(7));
    assert!(!session.is_active());
    assert_eq!(inner.init_context().module_name, None);
    assert_eq!(inner.color_mode(), ColorMode::Dark);
}

#[test]
fn surface_destroy_is_reported_only_for_a_live_surface() {
    let mut inner = Inner::new(0);
    assert!(inner.claim_render_owner("owner").is_ok());
    assert!(!inner.release_render("stale"));
    assert!(!inner.release_render("owner"));
    assert!(inner.claim_render_owner("owner").is_ok());
    assert!(inner.activate_surface("owner", Some(1), Rect::default()));
    assert!(inner.release_render("owner"));
    assert!(!inner.owns_render("owner"));
}

#[test]
fn frame_callback_is_registered_on_demand() {
    let mut inner = Inner::new(0);
    let mut gate = FrameCallbackGate::new();
    assert!(!inner.frame_callback_ready());
    assert!(!gate.enable(&inner, || -> bool { panic!("no render to register on") }));
    assert!(inner.begin_render(true, "owner", 5).is_ok());
    // The render exists but its surface is not alive yet.
    assert!(!inner.frame_callback_ready());
    assert!(!gate.enable(&inner, || -> bool { panic!("no live surface to register on") }));
    assert!(inner.activate_surface("owner", Some(1), Rect::default()));
    assert!(inner.frame_callback_ready());
    assert!(!gate.enable(&inner, || false));
    assert!(!gate.is_enabled());
    assert!(gate.enable(&inner, || true));
    assert!(gate.is_enabled());
    assert!(!gate.enable(&inner, || -> bool { panic!("already registered") }));
    assert!(gate.emits_redraw(true));
    assert!(!gate.emits_redraw(false));
    let mut unregistered = 0;
    gate.disable(|| unregistered += 1);
    gate.disable(|| unregistered += 1);
    assert_eq!(unregistered, 1);
    assert!(!gate.is_enabled());
    assert!(!gate.emits_redraw(true));
    // A hidden window's destroyed surface blocks registration again.
    assert!(inner.deactivate_surface("owner"));
    assert!(!gate.enable(&inner, || -> bool { panic!("surface destroyed") }));
}

#[test]
fn back_press_is_intercepted_by_default() {
    assert!(intercepts_back_press::<fn() -> bool>(None));
    assert!(!intercepts_back_press(Some(|| false)));
    assert!(intercepts_back_press(Some(|| true)));
}
