//! Per-module application state: saved state, init context, the one active render
//! owner with its surface, and the bridge session that a NativeAbility owns.
//!
//! A native module renders through at most one DefaultXComponent at a time. Surface
//! callbacks and teardown carry the owner token they were registered with, so a late
//! callback from a replaced component is ignored instead of clearing the state of its
//! successor.
use crate::error::AbilityError;
use crate::text::{owned, str_eq};
use vstd::prelude::*;

verus! {

/// A rectangle in pixels.
#[derive(Clone, Copy, Debug, PartialEq, Eq, Structural)]
pub struct Rect {
    pub top: i32,
    pub left: i32,
    pub width: i32,
    pub height: i32,
}

/// The all-zero rectangle.
pub open spec fn zero_rect() -> Rect {
    Rect { top: 0, left: 0, width: 0, height: 0 }
}

impl Default for Rect {
    fn default() -> (r: Rect)
        ensures
            r == zero_rect(),
    {
        Rect { top: 0, left: 0, width: 0, height: 0 }
    }
}

/// Which part of the window an avoid area reserves.
#[derive(Clone, Copy, Debug, PartialEq, Eq, Hash, Structural)]
pub enum AvoidAreaType {
    System,
    Cutout,
    SystemGesture,
    Keyboard,
    NavigationIndicator,
}

/// The system appearance, as `Configuration.colorMode` reports it.
#[derive(Clone, Copy, Debug, PartialEq, Eq, Structural)]
pub enum ColorMode {
    /// The system reported no appearance; windows fall back to light.
    NoSet,
    Dark,
    Light,
}

/// The appearance of a `Configuration.colorMode` code: 0 dark, 1 light, anything else
/// (-1 included) not set.
pub open spec fn spec_color_mode(code: i32) -> ColorMode {
    if code == 0 {
        ColorMode::Dark
    } else if code == 1 {
        ColorMode::Light
    } else {
        ColorMode::NoSet
    }
}

/// The appearance of a `Configuration.colorMode` code.
pub fn color_mode_from_code(code: i32) -> (m: ColorMode)
    ensures
        m == spec_color_mode(code),
{
    if code == 0 {
        ColorMode::Dark
    } else if code == 1 {
        ColorMode::Light
    } else {
        ColorMode::NoSet
    }
}

/// Values the ArkTS ability host reports when the native module starts.
#[derive(Clone, Debug)]
pub struct AbilityInitContext {
    pub base_path: Option<String>,
    pub pref_path: Option<String>,
    pub preferred_locales: Option<String>,
    /// OHOS `Configuration.colorMode` at init time: -1 not set, 0 dark, 1 light.
    pub color_mode: Option<i32>,
    pub module_name: Option<String>,
    /// Home directory resolved by the ets side before the native module loaded.
    /// Empty/absent means no directory was chosen.
    pub home_directory: Option<String>,
}

impl AbilityInitContext {
    /// Whether every value is absent.
    pub open spec fn is_unset(self) -> bool {
        &&& self.base_path is None
        &&& self.pref_path is None
        &&& self.preferred_locales is None
        &&& self.color_mode is None
        &&& self.module_name is None
        &&& self.home_directory is None
    }
}

impl Default for AbilityInitContext {
    fn default() -> (c: AbilityInitContext)
        ensures
            c.is_unset(),
    {
        AbilityInitContext {
            base_path: None,
            pref_path: None,
            preferred_locales: None,
            color_mode: None,
            module_name: None,
            home_directory: None,
        }
    }
}

/// A copy of an optional string.
fn clone_opt(s: &Option<String>) -> (r: Option<String>)
    ensures
        match (r, s) {
            (Some(a), Some(b)) => a@ == b@,
            (None, None) => true,
            _ => false,
        },
{
    match s {
        Some(v) => Some(v.clone()),
        None => None,
    }
}

/// The views of two optional strings agree.
pub open spec fn same_opt(a: Option<String>, b: Option<String>) -> bool {
    match (a, b) {
        (Some(x), Some(y)) => x@ == y@,
        (None, None) => true,
        _ => false,
    }
}

/// Two init contexts carry the same values.
pub open spec fn same_context(a: AbilityInitContext, b: AbilityInitContext) -> bool {
    &&& same_opt(a.base_path, b.base_path)
    &&& same_opt(a.pref_path, b.pref_path)
    &&& same_opt(a.preferred_locales, b.preferred_locales)
    &&& a.color_mode == b.color_mode
    &&& same_opt(a.module_name, b.module_name)
    &&& same_opt(a.home_directory, b.home_directory)
}

impl AbilityInitContext {
    /// A copy of this context.
    pub fn duplicate(&self) -> (c: AbilityInitContext)
        ensures
            same_context(c, *self),
    {
        AbilityInitContext {
            base_path: clone_opt(&self.base_path),
            pref_path: clone_opt(&self.pref_path),
            preferred_locales: clone_opt(&self.preferred_locales),
            color_mode: self.color_mode,
            module_name: clone_opt(&self.module_name),
            home_directory: clone_opt(&self.home_directory),
        }
    }
}

/// The render-related state of a native module, as seen by contracts.
pub struct RenderView<W, X, A> {
    /// Owner token of the active DefaultXComponent render, if any.
    pub render_owner: Option<Seq<char>>,
    /// Whether the owner's surface is currently alive.
    pub surface_active: bool,
    pub raw_window: Option<W>,
    pub xcomponent: Option<X>,
    /// Content rectangle of the surface.
    pub rect: Rect,
    /// Rectangle of the whole window.
    pub window_rect: Rect,
    /// Avoid areas of the window, by type.
    pub avoid_areas: Map<AvoidAreaType, A>,
}

/// The state after `owner` claims the render: refused while another owner is active.
pub open spec fn spec_claim<W, X, A>(v: RenderView<W, X, A>, owner: Seq<char>) -> (
    RenderView<W, X, A>,
    bool,
) {
    if v.render_owner is Some {
        (v, false)
    } else {
        (RenderView { render_owner: Some(owner), surface_active: false, ..v }, true)
    }
}

/// Whether `owner` holds the render.
pub open spec fn spec_owns<W, X, A>(v: RenderView<W, X, A>, owner: Seq<char>) -> bool {
    v.render_owner == Some(owner)
}

/// The state after the surface of `owner` is created.
pub open spec fn spec_activate<W, X, A>(
    v: RenderView<W, X, A>,
    owner: Seq<char>,
    raw_window: Option<W>,
    rect: Rect,
) -> (RenderView<W, X, A>, bool) {
    if !spec_owns(v, owner) || v.surface_active {
        (v, false)
    } else {
        (RenderView { raw_window, rect, surface_active: true, ..v }, true)
    }
}

/// The state after the surface of `owner` changes its rectangle.
pub open spec fn spec_update_rect<W, X, A>(v: RenderView<W, X, A>, owner: Seq<char>, rect: Rect) -> (
    RenderView<W, X, A>,
    bool,
) {
    if !spec_owns(v, owner) || !v.surface_active {
        (v, false)
    } else {
        (RenderView { rect, ..v }, true)
    }
}

/// The state after the surface of `owner` is destroyed; the owner keeps the render.
pub open spec fn spec_deactivate<W, X, A>(v: RenderView<W, X, A>, owner: Seq<char>) -> (
    RenderView<W, X, A>,
    bool,
) {
    if !spec_owns(v, owner) || !v.surface_active {
        (v, false)
    } else {
        (RenderView { raw_window: None, rect: zero_rect(), surface_active: false, ..v }, true)
    }
}

/// The state after `owner` releases the render, with whether its surface was alive
/// (`None` when `owner` is stale). Everything window-scoped is cleared.
pub open spec fn spec_release<W, X, A>(v: RenderView<W, X, A>, owner: Seq<char>) -> (
    RenderView<W, X, A>,
    Option<bool>,
) {
    if !spec_owns(v, owner) {
        (v, None)
    } else {
        (
            RenderView {
                render_owner: None,
                surface_active: false,
                raw_window: None,
                xcomponent: None,
                rect: zero_rect(),
                window_rect: zero_rect(),
                avoid_areas: Map::empty(),
            },
            Some(v.surface_active),
        )
    }
}

/// The avoid areas held as a list of (type, area) entries, at most one per type.
pub open spec fn areas_map<A>(entries: Seq<(AvoidAreaType, A)>) -> Map<AvoidAreaType, A> {
    Map::new(
        |t: AvoidAreaType| exists|i: int| 0 <= i < entries.len() && entries[i].0 == t,
        |t: AvoidAreaType|
            entries[choose|i: int| 0 <= i < entries.len() && entries[i].0 == t].1,
    )
}

/// No type occurs twice among the entries.
pub open spec fn areas_unique<A>(entries: Seq<(AvoidAreaType, A)>) -> bool {
    forall|i: int, j: int|
        0 <= i < entries.len() && 0 <= j < entries.len() && #[trigger] entries[i].0
            == #[trigger] entries[j].0 ==> i == j
}

/// The state of one native module: saved state, init context, and the render it owns.
pub struct OpenHarmonyAppInner<W, X, A> {
    raw_window: Option<W>,
    xcomponent: Option<X>,
    /// Owner token of this native module's one active DefaultXComponent render.
    render_owner: Option<String>,
    surface_active: bool,
    state: Vec<u8>,
    save_state: bool,
    id: i64,
    rect: Rect,
    window_rect: Rect,
    avoid_areas: Vec<(AvoidAreaType, A)>,
    init_context: AbilityInitContext,
    /// The system appearance of the configuration.
    color_mode: ColorMode,
}

impl<W, X, A> OpenHarmonyAppInner<W, X, A> {
    /// The avoid-area entries hold each type at most once.
    pub closed spec fn wf(self) -> bool {
        areas_unique(self.avoid_areas@)
    }

    /// The render-related state.
    pub closed spec fn render_view(self) -> RenderView<W, X, A> {
        RenderView {
            render_owner: match self.render_owner {
                Some(o) => Some(o@),
                None => None,
            },
            surface_active: self.surface_active,
            raw_window: self.raw_window,
            xcomponent: self.xcomponent,
            rect: self.rect,
            window_rect: self.window_rect,
            avoid_areas: areas_map(self.avoid_areas@),
        }
    }

    /// The module id this state was created with.
    pub closed spec fn spec_id(self) -> i64 {
        self.id
    }

    /// The last saved state.
    pub closed spec fn saved_state(self) -> Seq<u8> {
        self.state@
    }

    /// Whether the saved state is handed back by `load`.
    pub closed spec fn saves_state(self) -> bool {
        self.save_state
    }

    /// The init context the ability reported.
    pub closed spec fn spec_init_context(self) -> AbilityInitContext {
        self.init_context
    }

    /// The system appearance of the configuration.
    pub closed spec fn spec_color_mode(self) -> ColorMode {
        self.color_mode
    }

    /// Everything but the render-related state is unchanged from `other`.
    pub open spec fn same_module_state(self, other: Self) -> bool {
        &&& self.spec_color_mode() == other.spec_color_mode()
        &&& self.spec_id() == other.spec_id()
        &&& self.saved_state() == other.saved_state()
        &&& self.saves_state() == other.saves_state()
        &&& self.spec_init_context() == other.spec_init_context()
    }

    /// Fresh state for the module numbered `id`: no render, no saved state, an empty
    /// init context.
    pub fn new(id: i64) -> (inner: Self)
        ensures
            inner.wf(),
            inner.spec_id() == id,
            inner.render_view() == (RenderView::<W, X, A> {
                render_owner: None,
                surface_active: false,
                raw_window: None,
                xcomponent: None,
                rect: zero_rect(),
                window_rect: zero_rect(),
                avoid_areas: Map::empty(),
            }),
            inner.saved_state() == Seq::<u8>::empty(),
            !inner.saves_state(),
            inner.spec_init_context().is_unset(),
            inner.spec_color_mode() == ColorMode::Light,
    {
        let inner = OpenHarmonyAppInner {
            raw_window: None,
            xcomponent: None,
            render_owner: None,
            surface_active: false,
            state: Vec::new(),
            save_state: false,
            id,
            rect: Rect::default(),
            window_rect: Rect::default(),
            avoid_areas: Vec::new(),
            init_context: AbilityInitContext::default(),
            color_mode: ColorMode::Light,
        };
        assert(areas_map(inner.avoid_areas@) =~= Map::<AvoidAreaType, A>::empty());
        inner
    }

    /// The module id.
    pub fn id(&self) -> (id: i64)
        ensures
            id == self.spec_id(),
    {
        self.id
    }

    /// The saved app state, when state saving is on.
    pub fn load(&self) -> (state: Option<Vec<u8>>)
        ensures
            match state {
                Some(s) => self.saves_state() && s@ == self.saved_state(),
                None => !self.saves_state(),
            },
    {
        if self.save_state {
            Some(self.state.clone())
        } else {
            None
        }
    }

    /// Saves the current app state.
    pub fn save(&mut self, state: Vec<u8>)
        ensures
            final(self).saved_state() == state@,
            final(self).saves_state() == old(self).saves_state(),
            final(self).spec_id() == old(self).spec_id(),
            final(self).spec_init_context() == old(self).spec_init_context(),
            final(self).spec_color_mode() == old(self).spec_color_mode(),
            final(self).render_view() == old(self).render_view(),
            final(self).wf() == old(self).wf(),
    {
        self.state = state;
    }

    /// Turns handing the saved state back through `load` on or off.
    pub fn set_save_state(&mut self, enabled: bool)
        ensures
            final(self).saves_state() == enabled,
            final(self).saved_state() == old(self).saved_state(),
            final(self).spec_id() == old(self).spec_id(),
            final(self).spec_init_context() == old(self).spec_init_context(),
            final(self).spec_color_mode() == old(self).spec_color_mode(),
            final(self).render_view() == old(self).render_view(),
            final(self).wf() == old(self).wf(),
    {
        self.save_state = enabled;
    }

    /// Content rectangle of the render surface.
    pub fn content_rect(&self) -> (r: Rect)
        ensures
            r == self.render_view().rect,
    {
        self.rect
    }

    /// Rectangle of the window.
    pub fn window_rect(&self) -> (r: Rect)
        ensures
            r == self.render_view().window_rect,
    {
        self.window_rect
    }

    /// Records the window rectangle.
    pub fn set_window_rect(&mut self, rect: Rect)
        ensures
            final(self).render_view() == (RenderView { window_rect: rect, ..old(self).render_view() }),
            final(self).same_module_state(*old(self)),
            final(self).wf() == old(self).wf(),
    {
        self.window_rect = rect;
    }

    /// The native window of the active surface.
    pub fn native_window(&self) -> (w: Option<W>)
        where W: Copy,
        ensures
            w == self.render_view().raw_window,
    {
        self.raw_window
    }

    /// The XComponent of the active render.
    pub fn xcomponent(&self) -> (x: &Option<X>)
        ensures
            *x == self.render_view().xcomponent,
    {
        &self.xcomponent
    }

    /// The init context the ability reported.
    pub fn init_context(&self) -> (c: AbilityInitContext)
        ensures
            same_context(c, self.spec_init_context()),
    {
        self.init_context.duplicate()
    }

    /// The system appearance of the configuration.
    pub fn color_mode(&self) -> (m: ColorMode)
        ensures
            m == self.spec_color_mode(),
    {
        self.color_mode
    }

    /// Records a configuration update of the system appearance.
    pub fn set_color_mode(&mut self, mode: ColorMode)
        ensures
            final(self).spec_color_mode() == mode,
            final(self).spec_init_context() == old(self).spec_init_context(),
            final(self).render_view() == old(self).render_view(),
            final(self).saved_state() == old(self).saved_state(),
            final(self).saves_state() == old(self).saves_state(),
            final(self).spec_id() == old(self).spec_id(),
            final(self).wf() == old(self).wf(),
    {
        self.color_mode = mode;
    }

    /// Records the init context the ability reported. The ability reports the system
    /// appearance only when the configuration updates, never at startup, so a colour
    /// mode in the context seeds the configuration's appearance.
    pub fn set_init_context(&mut self, context: AbilityInitContext)
        ensures
            final(self).spec_init_context() == context,
            final(self).spec_color_mode() == match context.color_mode {
                Some(code) => spec_color_mode(code),
                None => old(self).spec_color_mode(),
            },
            final(self).render_view() == old(self).render_view(),
            final(self).saved_state() == old(self).saved_state(),
            final(self).saves_state() == old(self).saves_state(),
            final(self).spec_id() == old(self).spec_id(),
            final(self).wf() == old(self).wf(),
    {
        match context.color_mode {
            Some(code) => {
                self.color_mode = color_mode_from_code(code);
            },
            None => {},
        }
        self.init_context = context;
    }

    /// Claims the render for `owner`. Refused while another owner holds it.
    pub fn claim_render_owner(&mut self, owner: &str) -> (r: Result<(), AbilityError>)
        ensures
            final(self).render_view() == spec_claim(old(self).render_view(), owner@).0,
            r is Ok == spec_claim(old(self).render_view(), owner@).1,
            r is Err ==> r == Err::<(), AbilityError>(AbilityError::RenderOwnerActive),
            final(self).same_module_state(*old(self)),
            final(self).wf() == old(self).wf(),
    {
        if self.render_owner.is_some() {
            return Err(AbilityError::RenderOwnerActive);
        }
        self.render_owner = Some(owned(owner));
        self.surface_active = false;
        Ok(())
    }

    /// Begins a render for `owner` with `xcomponent`: refused outside an active bridge
    /// session and while another owner holds the render.
    pub fn begin_render(&mut self, bridge_active: bool, owner: &str, xcomponent: X) -> (r: Result<
        (),
        AbilityError,
    >)
        ensures
            !bridge_active ==> r == Err::<(), AbilityError>(AbilityError::RenderOutsideSession)
                && final(self).render_view() == old(self).render_view(),
            bridge_active && old(self).render_view().render_owner is Some ==> r == Err::<
                (),
                AbilityError,
            >(AbilityError::RenderOwnerActive) && final(self).render_view() == old(self).render_view(),
            bridge_active && old(self).render_view().render_owner is None ==> r is Ok
                && final(self).render_view() == (RenderView {
                xcomponent: Some(xcomponent),
                ..spec_claim(old(self).render_view(), owner@).0
            }),
            final(self).same_module_state(*old(self)),
            final(self).wf() == old(self).wf(),
    {
        if !bridge_active {
            return Err(AbilityError::RenderOutsideSession);
        }
        self.claim_render_owner(owner)?;
        self.xcomponent = Some(xcomponent);
        Ok(())
    }

    /// Whether `owner` holds the render.
    pub fn owns_render(&self, owner: &str) -> (b: bool)
        ensures
            b == spec_owns(self.render_view(), owner@),
    {
        match &self.render_owner {
            Some(current) => str_eq(current.as_str(), owner),
            None => false,
        }
    }

    /// Whether `owner` holds the render and its surface is alive.
    pub fn is_surface_active(&self, owner: &str) -> (b: bool)
        ensures
            b == (spec_owns(self.render_view(), owner@) && self.render_view().surface_active),
    {
        self.owns_render(owner) && self.surface_active
    }

    /// Records the surface of `owner` as created. Ignored (`false`) for a stale owner
    /// or a surface that is already alive.
    pub fn activate_surface(&mut self, owner: &str, raw_window: Option<W>, rect: Rect) -> (b:
        bool)
        ensures
            (final(self).render_view(), b) == spec_activate(
                old(self).render_view(),
                owner@,
                raw_window,
                rect,
            ),
            final(self).same_module_state(*old(self)),
            final(self).wf() == old(self).wf(),
    {
        if !self.owns_render(owner) || self.surface_active {
            return false;
        }
        self.raw_window = raw_window;
        self.rect = rect;
        self.surface_active = true;
        true
    }

    /// Records a new rectangle for the live surface of `owner`.
    pub fn update_surface_rect(&mut self, owner: &str, rect: Rect) -> (b: bool)
        ensures
            (final(self).render_view(), b) == spec_update_rect(
                old(self).render_view(),
                owner@,
                rect,
            ),
            final(self).same_module_state(*old(self)),
            final(self).wf() == old(self).wf(),
    {
        if !self.owns_render(owner) || !self.surface_active {
            return false;
        }
        self.rect = rect;
        true
    }

    /// Records the surface of `owner` as destroyed; the owner keeps the render so the
    /// surface can be created again.
    pub fn deactivate_surface(&mut self, owner: &str) -> (b: bool)
        ensures
            (final(self).render_view(), b) == spec_deactivate(old(self).render_view(), owner@),
            final(self).same_module_state(*old(self)),
            final(self).wf() == old(self).wf(),
    {
        if !self.owns_render(owner) || !self.surface_active {
            return false;
        }
        self.raw_window = None;
        self.rect = Rect::default();
        self.surface_active = false;
        true
    }

    /// Releases the render of `owner` and clears everything window-scoped. Returns
    /// whether its surface was alive, or `None` for a stale owner, which changes
    /// nothing.
    pub fn release_render_owner(&mut self, owner: &str) -> (r: Option<bool>)
        ensures
            (final(self).render_view(), r) == spec_release(old(self).render_view(), owner@),
            final(self).same_module_state(*old(self)),
            r is Some ==> final(self).wf(),
            r is None ==> final(self).wf() == old(self).wf(),
    {
        if !self.owns_render(owner) {
            return None;
        }
        let surface_was_active = self.surface_active;
        self.render_owner = None;
        self.surface_active = false;
        self.raw_window = None;
        self.xcomponent = None;
        self.rect = Rect::default();
        self.window_rect = Rect::default();
        self.avoid_areas = Vec::new();
        assert(areas_map(self.avoid_areas@) =~= Map::<AvoidAreaType, A>::empty());
        Some(surface_was_active)
    }
}

impl<W, X, A> OpenHarmonyAppInner<W, X, A> {
    /// Releases the render of `owner` (a stale owner changes nothing) and says whether
    /// the event loop must be told that the surface was destroyed: only when the
    /// released owner's surface was alive.
    pub fn release_render(&mut self, owner: &str) -> (surface_destroyed: bool)
        ensures
            final(self).render_view() == spec_release(old(self).render_view(), owner@).0,
            surface_destroyed == (spec_release(old(self).render_view(), owner@).1 == Some(true)),
            final(self).same_module_state(*old(self)),
            spec_owns(old(self).render_view(), owner@) ==> final(self).wf(),
            !spec_owns(old(self).render_view(), owner@) ==> final(self).wf() == old(self).wf(),
    {
        match self.release_render_owner(owner) {
            Some(surface_was_active) => surface_was_active,
            None => false,
        }
    }
}

/// Whether the render can draw frames: an owner holds it with its XComponent and its
/// surface is alive (not hidden or destroyed).
pub open spec fn spec_frame_ready<W, X, A>(v: RenderView<W, X, A>) -> bool {
    v.render_owner is Some && v.xcomponent is Some && v.surface_active
}

impl<W, X, A> OpenHarmonyAppInner<W, X, A> {
    /// Whether the render can draw frames, so a frame callback may be registered.
    pub fn frame_callback_ready(&self) -> (ready: bool)
        ensures
            ready == spec_frame_ready(self.render_view()),
    {
        self.render_owner.is_some() && self.xcomponent.is_some() && self.surface_active
    }
}

/// Whether the avoid-area types `a` and `b` are the same.
fn same_area_type(a: AvoidAreaType, b: AvoidAreaType) -> (r: bool)
    ensures
        r == (a == b),
{
    a == b
}

impl<W, X, A: Copy> OpenHarmonyAppInner<W, X, A> {
    /// Index of the entry for `area_type`, if any.
    fn find_area(&self, area_type: AvoidAreaType) -> (r: Option<usize>)
        ensures
            match r {
                Some(i) => i < self.avoid_areas@.len() && self.avoid_areas@[i as int].0
                    == area_type,
                None => forall|i: int|
                    0 <= i < self.avoid_areas@.len() ==> self.avoid_areas@[i].0 != area_type,
            },
    {
        let mut i: usize = 0;
        while i < self.avoid_areas.len()
            invariant
                0 <= i <= self.avoid_areas@.len(),
                forall|j: int| 0 <= j < i ==> self.avoid_areas@[j].0 != area_type,
            decreases self.avoid_areas@.len() - i,
        {
            if same_area_type(self.avoid_areas[i].0, area_type) {
                return Some(i);
            }
            i = i + 1;
        }
        None
    }

    /// The avoid area of `area_type`, if one was reported.
    pub fn avoid_area(&self, area_type: AvoidAreaType) -> (r: Option<A>)
        requires
            self.wf(),
        ensures
            match r {
                Some(a) => self.render_view().avoid_areas.contains_key(area_type)
                    && self.render_view().avoid_areas[area_type] == a,
                None => !self.render_view().avoid_areas.contains_key(area_type),
            },
    {
        match self.find_area(area_type) {
            Some(i) => {
                let a = self.avoid_areas[i].1;
                proof {
                    let entries = self.avoid_areas@;
                    assert(entries[i as int].0 == area_type);
                    let k = choose|k: int| 0 <= k < entries.len() && entries[k].0 == area_type;
                    assert(entries[k].0 == entries[i as int].0);
                }
                Some(a)
            },
            None => None,
        }
    }

    /// Every reported avoid area, one entry per type.
    pub fn avoid_areas(&self) -> (r: Vec<(AvoidAreaType, A)>)
        requires
            self.wf(),
        ensures
            areas_unique(r@),
            areas_map(r@) == self.render_view().avoid_areas,
    {
        let mut r: Vec<(AvoidAreaType, A)> = Vec::new();
        let mut i: usize = 0;
        while i < self.avoid_areas.len()
            invariant
                0 <= i <= self.avoid_areas@.len(),
                r@ == self.avoid_areas@.subrange(0, i as int),
            decreases self.avoid_areas@.len() - i,
        {
            r.push(self.avoid_areas[i]);
            i = i + 1;
            assert(r@ =~= self.avoid_areas@.subrange(0, i as int));
        }
        assert(r@ =~= self.avoid_areas@);
        r
    }

    /// Records the avoid area of `area_type`, replacing an earlier one.
    pub fn set_avoid_area(&mut self, area_type: AvoidAreaType, area: A)
        requires
            old(self).wf(),
        ensures
            final(self).wf(),
            final(self).render_view() == (RenderView {
                avoid_areas: old(self).render_view().avoid_areas.insert(area_type, area),
                ..old(self).render_view()
            }),
            final(self).same_module_state(*old(self)),
    {
        let ghost old_entries = self.avoid_areas@;
        match self.find_area(area_type) {
            Some(i) => {
                self.avoid_areas.set(i, (area_type, area));
                proof {
                    let entries = self.avoid_areas@;
                    assert(entries =~= old_entries.update(i as int, (area_type, area)));
                    assert(areas_unique(entries));
                    let m_new = areas_map(entries);
                    let m_old = areas_map(old_entries);
                    assert forall|t: AvoidAreaType| #![auto]
                        m_new.contains_key(t) == m_old.insert(area_type, area).contains_key(t)
                        by {
                        if t != area_type {
                            if m_old.contains_key(t) {
                                let k = choose|k: int|
                                    0 <= k < old_entries.len() && old_entries[k].0 == t;
                                assert(entries[k].0 == t);
                            }
                            if m_new.contains_key(t) {
                                let k = choose|k: int| 0 <= k < entries.len() && entries[k].0 == t;
                                assert(old_entries[k].0 == t);
                            }
                        } else {
                            assert(entries[i as int].0 == t);
                        }
                    }
                    assert forall|t: AvoidAreaType| #[trigger]
                        m_new.contains_key(t) implies m_new[t] == m_old.insert(area_type, area)[t]
                        by {
                        let k = choose|k: int| 0 <= k < entries.len() && entries[k].0 == t;
                        if t != area_type {
                            let k2 = choose|k2: int|
                                0 <= k2 < old_entries.len() && old_entries[k2].0 == t;
                            assert(entries[k2].0 == t);
                            assert(k == k2);
                        } else {
                            assert(entries[i as int].0 == t);
                            assert(k == i);
                        }
                    }
                    assert(m_new =~= m_old.insert(area_type, area));
                }
            },
            None => {
                self.avoid_areas.push((area_type, area));
                proof {
                    let entries = self.avoid_areas@;
                    let n = old_entries.len();
                    assert(entries =~= old_entries.push((area_type, area)));
                    assert(areas_unique(entries));
                    let m_new = areas_map(entries);
                    let m_old = areas_map(old_entries);
                    assert forall|t: AvoidAreaType| #![auto]
                        m_new.contains_key(t) == m_old.insert(area_type, area).contains_key(t)
                        by {
                        if t != area_type {
                            if m_old.contains_key(t) {
                                let k = choose|k: int|
                                    0 <= k < old_entries.len() && old_entries[k].0 == t;
                                assert(entries[k].0 == t);
                            }
                            if m_new.contains_key(t) {
                                let k = choose|k: int| 0 <= k < entries.len() && entries[k].0 == t;
                                assert(old_entries[k].0 == t);
                            }
                        } else {
                            assert(entries[n as int].0 == t);
                        }
                    }
                    assert forall|t: AvoidAreaType| #[trigger]
                        m_new.contains_key(t) implies m_new[t] == m_old.insert(area_type, area)[t]
                        by {
                        let k = choose|k: int| 0 <= k < entries.len() && entries[k].0 == t;
                        if t != area_type {
                            let k2 = choose|k2: int|
                                0 <= k2 < old_entries.len() && old_entries[k2].0 == t;
                            assert(entries[k2].0 == t);
                            assert(k == k2);
                        } else {
                            assert(entries[n as int].0 == t);
                            assert(k == n);
                        }
                    }
                    assert(m_new =~= m_old.insert(area_type, area));
                }
            },
        }
    }
}

// ---------------------------------------------------------------------------------
// Laws of the render owner
// ---------------------------------------------------------------------------------

/// At most one render owner: while `a` holds the render, any other claim is refused
/// and changes nothing.
pub proof fn lemma_claim_excludes_second_owner<W, X, A>(
    v: RenderView<W, X, A>,
    a: Seq<char>,
    b: Seq<char>,
)
    requires
        spec_claim(v, a).1,
    ensures
        !spec_claim(spec_claim(v, a).0, b).1,
        spec_claim(spec_claim(v, a).0, b).0 == spec_claim(v, a).0,
        spec_owns(spec_claim(v, a).0, a),
{
}

/// Callbacks carrying a stale owner token change nothing and report failure.
pub proof fn lemma_stale_owner_is_ignored<W, X, A>(
    v: RenderView<W, X, A>,
    stale: Seq<char>,
    raw_window: Option<W>,
    rect: Rect,
)
    requires
        !spec_owns(v, stale),
    ensures
        spec_activate(v, stale, raw_window, rect) == (v, false),
        spec_update_rect(v, stale, rect) == (v, false),
        spec_deactivate(v, stale) == (v, false),
        spec_release(v, stale) == (v, None::<bool>),
{
}

/// A destroyed surface can be created again by the same owner, which keeps the render
/// throughout.
pub proof fn lemma_surface_recreation_keeps_owner<W, X, A>(
    v: RenderView<W, X, A>,
    owner: Seq<char>,
    raw_window: Option<W>,
    rect: Rect,
)
    requires
        spec_owns(v, owner),
        v.surface_active,
    ensures
        spec_deactivate(v, owner).1,
        spec_owns(spec_deactivate(v, owner).0, owner),
        spec_activate(spec_deactivate(v, owner).0, owner, raw_window, rect).1,
        spec_owns(spec_activate(spec_deactivate(v, owner).0, owner, raw_window, rect).0, owner),
{
}

/// Destroying the surface keeps the render: its owner, its XComponent, the window
/// rectangle and the avoid areas stay, and only the native window, the content
/// rectangle and the live flag go. So a render that could draw frames can draw them
/// again once its surface is created again.
pub proof fn lemma_surface_destroy_keeps_render<W, X, A>(
    v: RenderView<W, X, A>,
    owner: Seq<char>,
    raw_window: Option<W>,
    rect: Rect,
)
    requires
        spec_owns(v, owner),
        v.surface_active,
    ensures
        spec_deactivate(v, owner).0.render_owner == v.render_owner,
        spec_deactivate(v, owner).0.xcomponent == v.xcomponent,
        spec_deactivate(v, owner).0.window_rect == v.window_rect,
        spec_deactivate(v, owner).0.avoid_areas == v.avoid_areas,
        spec_deactivate(v, owner).0.raw_window is None,
        !spec_deactivate(v, owner).0.surface_active,
        spec_activate(spec_deactivate(v, owner).0, owner, raw_window, rect).0.xcomponent
            == v.xcomponent,
        spec_frame_ready(v) ==> spec_frame_ready(
            spec_activate(spec_deactivate(v, owner).0, owner, raw_window, rect).0,
        ),
        spec_update_rect(v, owner, rect).0 == (RenderView { rect, ..v }),
{
}

/// Releasing the render by its owner clears every window-scoped value, and another
/// owner can then claim the render.
pub proof fn lemma_release_frees_render<W, X, A>(
    v: RenderView<W, X, A>,
    owner: Seq<char>,
    next: Seq<char>,
)
    requires
        spec_owns(v, owner),
    ensures
        spec_release(v, owner).1 == Some(v.surface_active),
        spec_release(v, owner).0.window_rect == zero_rect(),
        spec_release(v, owner).0.rect == zero_rect(),
        spec_release(v, owner).0.avoid_areas == Map::<AvoidAreaType, A>::empty(),
        spec_release(v, owner).0.raw_window is None,
        spec_release(v, owner).0.xcomponent is None,
        spec_claim(spec_release(v, owner).0, next).1,
{
}

/// The length of the resource directory written by
/// `OH_AbilityRuntime_ApplicationContextGetResourceDir`: the written length when the
/// call succeeded (code 0) and wrote something, `None` otherwise. The written length
/// never exceeds the buffer the call was given.
pub fn resource_dir_length(code: i32, write_length: i32, capacity: usize) -> (len: Option<usize>)
    requires
        code != 0 || write_length <= 0 || write_length <= capacity,
    ensures
        code == 0 && write_length > 0 ==> len == Some(write_length as usize),
        !(code == 0 && write_length > 0) ==> len is None,
{
    if code != 0 || write_length <= 0 {
        None
    } else {
        Some(write_length as usize)
    }
}

// ---------------------------------------------------------------------------------
// Bridge session
// ---------------------------------------------------------------------------------

/// The bridge session of one NativeAbility/module: its owner token and the transport
/// endpoints `R` it installed. Its lifetime is independent of the optional render.
pub struct BridgeSession<R> {
    session: Option<(String, R)>,
}

impl<R> BridgeSession<R> {
    /// The owner and endpoints of the active session.
    pub closed spec fn active(self) -> Option<(Seq<char>, R)> {
        match self.session {
            Some((o, r)) => Some((o@, r)),
            None => None,
        }
    }

    /// No session.
    pub fn new() -> (s: Self)
        ensures
            s.active() is None,
    {
        BridgeSession { session: None }
    }

    /// Whether a session is active.
    pub fn is_active(&self) -> (b: bool)
        ensures
            b == self.active() is Some,
    {
        self.session.is_some()
    }

    /// Begins a session for `owner`: refused for an empty owner and while a session
    /// is active.
    pub fn begin(&mut self, owner: &str, endpoints: R) -> (r: Result<(), AbilityError>)
        ensures
            owner@.len() == 0 ==> r == Err::<(), AbilityError>(AbilityError::EmptySessionOwner)
                && final(self).active() == old(self).active(),
            owner@.len() > 0 && old(self).active() is Some ==> r == Err::<(), AbilityError>(
                AbilityError::SessionActive,
            ) && final(self).active() == old(self).active(),
            owner@.len() > 0 && old(self).active() is None ==> r is Ok && final(self).active()
                == Some((owner@, endpoints)),
    {
        if owner.is_empty() {
            return Err(AbilityError::EmptySessionOwner);
        }
        if self.session.is_some() {
            return Err(AbilityError::SessionActive);
        }
        self.session = Some((owned(owner), endpoints));
        Ok(())
    }

    /// Ends the session of `owner` and hands its endpoints back. A stale owner leaves
    /// a later session in place and gets `None`.
    pub fn release(&mut self, owner: &str) -> (r: Option<R>)
        ensures
            match old(self).active() {
                Some((o, e)) if o == owner@ => r == Some(e) && final(self).active() is None,
                _ => r is None && final(self).active() == old(self).active(),
            },
    {
        let matches = match &self.session {
            Some((current, _)) => str_eq(current.as_str(), owner),
            None => false,
        };
        if !matches {
            return None;
        }
        match self.session.take() {
            Some((_, endpoints)) => Some(endpoints),
            None => None,
        }
    }

    /// The endpoints of the active session.
    pub fn endpoints(&self) -> (r: Result<&R, AbilityError>)
        ensures
            match self.active() {
                Some((_, e)) => r == Ok::<&R, AbilityError>(&e),
                None => r == Err::<&R, AbilityError>(AbilityError::BridgeNotReady),
            },
    {
        match &self.session {
            Some((_, endpoints)) => Ok(endpoints),
            None => Err(AbilityError::BridgeNotReady),
        }
    }
}

/// Ends the bridge session of `owner`: a stale owner changes nothing; when the
/// session ends, the init context it reported is cleared (the appearance it seeded
/// stays until the next configuration update).
pub fn end_bridge_session<R, W, X, A>(
    session: &mut BridgeSession<R>,
    inner: &mut OpenHarmonyAppInner<W, X, A>,
    owner: &str,
) -> (endpoints: Option<R>)
    ensures
        match old(session).active() {
            Some((o, e)) if o == owner@ => {
                &&& endpoints == Some(e)
                &&& final(session).active() is None
                &&& final(inner).spec_init_context().is_unset()
            },
            _ => {
                &&& endpoints is None
                &&& final(session).active() == old(session).active()
                &&& final(inner).spec_init_context() == old(inner).spec_init_context()
            },
        },
        final(inner).spec_color_mode() == old(inner).spec_color_mode(),
        final(inner).render_view() == old(inner).render_view(),
        final(inner).saved_state() == old(inner).saved_state(),
        final(inner).saves_state() == old(inner).saves_state(),
        final(inner).spec_id() == old(inner).spec_id(),
        final(inner).wf() == old(inner).wf(),
{
    let released = session.release(owner);
    if released.is_some() {
        inner.set_init_context(AbilityInitContext::default());
    }
    released
}

/// Whether the per-vsync frame callback of the render is registered. It is
/// registered on demand and unregistered when the window goes idle, so an idle window
/// does not wake the main thread.
pub struct FrameCallbackGate {
    enabled: bool,
}

impl FrameCallbackGate {
    /// Whether the frame callback is registered.
    pub closed spec fn spec_enabled(self) -> bool {
        self.enabled
    }

    /// No frame callback registered.
    pub fn new() -> (g: Self)
        ensures
            !g.spec_enabled(),
    {
        FrameCallbackGate { enabled: false }
    }

    /// Whether the frame callback is registered.
    pub fn is_enabled(&self) -> (b: bool)
        ensures
            b == self.spec_enabled(),
    {
        self.enabled
    }

    /// Registers the frame callback through `register` when it is not registered yet
    /// and the render of `inner` can draw (`frame_callback_ready`: an owner with its
    /// XComponent and a live surface, so nothing is registered while the window is
    /// hidden or its surface destroyed); a registration the system refused leaves it
    /// unregistered. Returns whether it was registered now.
    pub fn enable<W, X, A, F: FnOnce() -> bool>(
        &mut self,
        inner: &OpenHarmonyAppInner<W, X, A>,
        register: F,
    ) -> (registered: bool)
        requires
            !old(self).spec_enabled() && spec_frame_ready(inner.render_view()) ==> call_requires(
                register,
                (),
            ),
        ensures
            old(self).spec_enabled() ==> final(self).spec_enabled() && !registered,
            !old(self).spec_enabled() && !spec_frame_ready(inner.render_view())
                ==> !final(self).spec_enabled() && !registered,
            !old(self).spec_enabled() && spec_frame_ready(inner.render_view()) ==> exists|ok: bool|
                #[trigger] call_ensures(register, (), ok) && registered == ok
                    && final(self).spec_enabled() == ok,
    {
        let render_ready = inner.frame_callback_ready();
        if self.enabled || !render_ready {
            return false;
        }
        let ok = register();
        self.enabled = ok;
        ok
    }

    /// Unregisters the frame callback through `unregister` when it is registered; it
    /// counts as unregistered afterwards whatever the system answered.
    pub fn disable<F: FnOnce()>(&mut self, unregister: F)
        requires
            old(self).spec_enabled() ==> call_requires(unregister, ()),
        ensures
            !final(self).spec_enabled(),
    {
        if self.enabled {
            unregister();
            self.enabled = false;
        }
    }

    /// Whether a vsync becomes a redraw: only while the callback is registered and the
    /// render's surface is alive.
    pub fn emits_redraw(&self, surface_active: bool) -> (redraw: bool)
        ensures
            redraw == (self.spec_enabled() && surface_active),
    {
        self.enabled && surface_active
    }
}

/// Whether a back press is intercepted: the registered interceptor decides, and
/// without one the press is intercepted.
pub fn intercepts_back_press<F: FnOnce() -> bool>(interceptor: Option<F>) -> (intercept: bool)
    requires
        interceptor matches Some(f) ==> call_requires(f, ()),
    ensures
        interceptor is None ==> intercept,
        interceptor matches Some(f) ==> call_ensures(f, (), intercept),
{
    match interceptor {
        Some(f) => f(),
        None => true,
    }
}

} // verus!
