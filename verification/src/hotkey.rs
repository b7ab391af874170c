//! The registry of global hotkey subscriptions.
//!
//! A hotkey is a non-empty list of at most two modifier keys plus exactly one final
//! key. Every subscription is registered with a trampoline entry point of its own, so
//! the subscription occupies the slot of that trampoline; the slot is what identifies
//! the subscription when the system reports a fire. The system calls themselves are
//! made by the caller-supplied monitor callbacks.
use vstd::prelude::*;

verus! {

/// Modifier keys a hotkey may combine. The system accepts at most two.
pub const MAX_PRE_KEYS: usize = 2;

/// Hotkeys that can be subscribed at once (one trampoline per slot).
pub const MAX_SUBSCRIPTIONS: usize = 8;

/// The operation succeeded.
pub const INPUT_SUCCESS: i32 = 0;

/// The application lacks the permission the operation needs.
pub const INPUT_PERMISSION_DENIED: i32 = 201;

/// An argument was malformed.
pub const INPUT_PARAMETER_ERROR: i32 = 401;

/// The device has no keyboard capable of the combination.
pub const INPUT_DEVICE_NOT_SUPPORTED: i32 = 801;

/// The combination is reserved by the system.
pub const INPUT_OCCUPIED_BY_SYSTEM: i32 = 4200002;

/// The combination is already subscribed by this or another application.
pub const INPUT_OCCUPIED_BY_OTHER: i32 = 4200003;

/// A live subscription: its modifier keys, final key and the system hotkey object.
struct Subscription<H> {
    pre_keys: Vec<i32>,
    final_key: i32,
    hotkey: H,
}

/// A slot as seen by contracts: the modifier keys, the final key and the hotkey object.
pub type SlotView<H> = Option<(Seq<i32>, i32, H)>;

/// The view of one slot.
spec fn slot_view<H>(slot: Option<Subscription<H>>) -> SlotView<H> {
    match slot {
        Some(s) => Some((s.pre_keys@, s.final_key, s.hotkey)),
        None => None,
    }
}

/// Whether `slot` holds the combination `pre_keys` + `final_key`.
pub open spec fn slot_matches<H>(slot: SlotView<H>, pre_keys: Seq<i32>, final_key: i32) -> bool {
    match slot {
        Some((k, f, _)) => k == pre_keys && f == final_key,
        None => false,
    }
}

/// The modifier keys held by an occupied slot.
pub open spec fn slot_keys<H>(slot: SlotView<H>) -> Seq<i32> {
    match slot {
        Some((k, _, _)) => k,
        None => Seq::empty(),
    }
}

/// The final key held by an occupied slot.
pub open spec fn slot_final_key<H>(slot: SlotView<H>) -> i32 {
    match slot {
        Some((_, f, _)) => f,
        None => 0,
    }
}

/// The hotkey object held by an occupied slot.
pub open spec fn slot_hotkey<H>(slot: SlotView<H>) -> H
    recommends
        slot is Some,
{
    match slot {
        Some((_, _, h)) => h,
        None => arbitrary(),
    }
}

/// Whether some slot holds the combination.
pub open spec fn is_subscribed<H>(slots: Seq<SlotView<H>>, pre_keys: Seq<i32>, final_key: i32) -> bool {
    exists|i: int| 0 <= i < slots.len() && slot_matches(#[trigger] slots[i], pre_keys, final_key)
}

/// Whether `s` is the lowest unused slot.
pub open spec fn is_first_free<H>(slots: Seq<SlotView<H>>, s: int) -> bool {
    &&& 0 <= s < slots.len()
    &&& slots[s] is None
    &&& forall|j: int| 0 <= j < s ==> #[trigger] slots[j] is Some
}

/// Whether every slot is in use.
pub open spec fn all_in_use<H>(slots: Seq<SlotView<H>>) -> bool {
    forall|j: int| 0 <= j < slots.len() ==> #[trigger] slots[j] is Some
}

/// No combination occupies two slots.
pub open spec fn slots_unique<H>(slots: Seq<SlotView<H>>) -> bool {
    forall|i: int, j: int|
        0 <= i < slots.len() && 0 <= j < slots.len() && i != j && (#[trigger] slots[i]) is Some
            && (#[trigger] slots[j]) is Some ==> !slot_matches(
            slots[j],
            slot_keys(slots[i]),
            slot_final_key(slots[i]),
        )
}

/// Whether a modifier-key list has a supported length.
pub open spec fn valid_pre_keys(pre_keys: Seq<i32>) -> bool {
    1 <= pre_keys.len() <= MAX_PRE_KEYS
}

/// The live subscriptions, indexed by the trampoline slot they were registered with.
pub struct HotkeyRegistry<H> {
    slots: Vec<Option<Subscription<H>>>,
}

/// Whether two key lists are equal.
fn keys_equal(a: &[i32], b: &[i32]) -> (eq: bool)
    ensures
        eq == (a@ == b@),
{
    if a.len() != b.len() {
        return false;
    }
    let mut i: usize = 0;
    while i < a.len()
        invariant
            a@.len() == b@.len(),
            0 <= i <= a@.len(),
            forall|j: int| 0 <= j < i ==> a@[j] == b@[j],
        decreases a@.len() - i,
    {
        if a[i] != b[i] {
            return false;
        }
        i = i + 1;
    }
    assert(a@ =~= b@);
    true
}

/// A copy of a key list.
fn copy_keys(keys: &[i32]) -> (v: Vec<i32>)
    ensures
        v@ == keys@,
{
    let mut v: Vec<i32> = Vec::new();
    let mut i: usize = 0;
    while i < keys.len()
        invariant
            0 <= i <= keys@.len(),
            v@ == keys@.subrange(0, i as int),
        decreases keys@.len() - i,
    {
        v.push(keys[i]);
        i = i + 1;
        assert(v@ =~= keys@.subrange(0, i as int));
    }
    assert(v@ =~= keys@);
    v
}

impl<H> HotkeyRegistry<H> {
    /// The slots.
    pub closed spec fn view_slots(self) -> Seq<SlotView<H>> {
        self.slots@.map_values(|s: Option<Subscription<H>>| slot_view(s))
    }

    /// One slot per trampoline, and no combination subscribed twice.
    pub closed spec fn wf(self) -> bool {
        &&& self.slots@.len() == MAX_SUBSCRIPTIONS
        &&& slots_unique(self.view_slots())
    }

    /// A well-formed registry has one slot per trampoline and holds no combination
    /// twice.
    pub proof fn lemma_wf_slots(self)
        requires
            self.wf(),
        ensures
            self.view_slots().len() == MAX_SUBSCRIPTIONS,
            slots_unique(self.view_slots()),
    {
    }

    /// A registry with every slot unused.
    pub fn new() -> (r: Self)
        ensures
            r.wf(),
            r.view_slots() == Seq::new(MAX_SUBSCRIPTIONS as nat, |i: int| None::<(Seq<i32>, i32, H)>),
    {
        let mut slots: Vec<Option<Subscription<H>>> = Vec::new();
        let mut i: usize = 0;
        while i < MAX_SUBSCRIPTIONS
            invariant
                0 <= i <= MAX_SUBSCRIPTIONS,
                slots@.len() == i,
                forall|j: int| 0 <= j < i ==> slots@[j] is None,
            decreases MAX_SUBSCRIPTIONS - i,
        {
            slots.push(None);
            i = i + 1;
        }
        let r = HotkeyRegistry { slots };
        assert(r.view_slots() =~= Seq::new(
            MAX_SUBSCRIPTIONS as nat,
            |i: int| None::<(Seq<i32>, i32, H)>,
        ));
        r
    }

    /// The slot `pre_keys` + `final_key` is subscribed in, if any.
    pub fn find(&self, pre_keys: &[i32], final_key: i32) -> (r: Option<usize>)
        ensures
            match r {
                Some(i) => i < self.view_slots().len() && slot_matches(
                    self.view_slots()[i as int],
                    pre_keys@,
                    final_key,
                ),
                None => !is_subscribed(self.view_slots(), pre_keys@, final_key),
            },
    {
        let mut i: usize = 0;
        while i < self.slots.len()
            invariant
                0 <= i <= self.slots@.len(),
                forall|j: int|
                    0 <= j < i ==> !slot_matches(
                        #[trigger] self.view_slots()[j],
                        pre_keys@,
                        final_key,
                    ),
            decreases self.slots@.len() - i,
        {
            let hit = match &self.slots[i] {
                Some(sub) => sub.final_key == final_key && keys_equal(sub.pre_keys.as_slice(), pre_keys),
                None => false,
            };
            assert(self.view_slots()[i as int] == slot_view(self.slots@[i as int]));
            if hit {
                return Some(i);
            }
            i = i + 1;
        }
        None
    }

    /// The first unused slot, if any trampoline is still free.
    pub fn first_free(&self) -> (r: Option<usize>)
        ensures
            match r {
                Some(i) => is_first_free(self.view_slots(), i as int),
                None => all_in_use(self.view_slots()),
            },
    {
        let mut i: usize = 0;
        while i < self.slots.len()
            invariant
                0 <= i <= self.slots@.len(),
                forall|j: int| 0 <= j < i ==> #[trigger] self.view_slots()[j] is Some,
            decreases self.slots@.len() - i,
        {
            assert(self.view_slots()[i as int] == slot_view(self.slots@[i as int]));
            if self.slots[i].is_none() {
                return Some(i);
            }
            i = i + 1;
        }
        None
    }

    /// The modifier keys and final key subscribed in `slot`, when the system reports a
    /// fire on that slot's trampoline. A fire on a freed slot has nothing to report.
    pub fn keys_for_slot(&self, slot: usize) -> (r: Option<(Vec<i32>, i32)>)
        ensures
            match r {
                Some((k, f)) => {
                    &&& slot < self.view_slots().len()
                    &&& self.view_slots()[slot as int] is Some
                    &&& slot_keys(self.view_slots()[slot as int]) == k@
                    &&& slot_final_key(self.view_slots()[slot as int]) == f
                },
                None => slot >= self.view_slots().len() || self.view_slots()[slot as int] is None,
            },
    {
        if slot >= self.slots.len() {
            return None;
        }
        assert(self.view_slots()[slot as int] == slot_view(self.slots@[slot as int]));
        match &self.slots[slot] {
            Some(sub) => Some((copy_keys(sub.pre_keys.as_slice()), sub.final_key)),
            None => None,
        }
    }

    /// Subscribes to `pre_keys` + `final_key`.
    ///
    /// A malformed modifier list, or a registry whose slots are all in use, is refused
    /// with `INPUT_PARAMETER_ERROR`. A combination that is already subscribed is a
    /// no-op that reports success. Otherwise `add_monitor` is called with the lowest
    /// free slot: it registers the hotkey with that slot's trampoline and returns the
    /// system hotkey object, or the system's `Input_Result` code, which is returned.
    pub fn register<F: FnOnce(usize) -> Result<H, i32>>(
        &mut self,
        pre_keys: &[i32],
        final_key: i32,
        add_monitor: F,
    ) -> (r: Result<(), i32>)
        requires
            old(self).wf(),
            forall|s: usize|
                valid_pre_keys(pre_keys@) && !is_subscribed(old(self).view_slots(), pre_keys@, final_key)
                    && is_first_free(old(self).view_slots(), s as int) ==> call_requires(
                    add_monitor,
                    (s,),
                ),
        ensures
            final(self).wf(),
            !valid_pre_keys(pre_keys@) ==> r == Err::<(), i32>(INPUT_PARAMETER_ERROR) && final(self).view_slots() == old(self).view_slots(),
            valid_pre_keys(pre_keys@) && is_subscribed(old(self).view_slots(), pre_keys@, final_key)
                ==> r == Ok::<(), i32>(()) && final(self).view_slots() == old(self).view_slots(),
            valid_pre_keys(pre_keys@) && !is_subscribed(old(self).view_slots(), pre_keys@, final_key)
                && all_in_use(old(self).view_slots()) ==> r == Err::<(), i32>(INPUT_PARAMETER_ERROR)
                && final(self).view_slots() == old(self).view_slots(),
            valid_pre_keys(pre_keys@) && !is_subscribed(old(self).view_slots(), pre_keys@, final_key)
                && !all_in_use(old(self).view_slots()) ==> exists|s: usize, res: Result<H, i32>|
                {
                    &&& is_first_free(old(self).view_slots(), s as int)
                    &&& call_ensures(add_monitor, (s,), res)
                    &&& match res {
                        Ok(h) => r == Ok::<(), i32>(()) && final(self).view_slots() == old(self).view_slots().update(s as int, Some((pre_keys@, final_key, h))),
                        Err(code) => r == Err::<(), i32>(code) && final(self).view_slots() == old(self).view_slots(),
                    }
                },
    {
        if pre_keys.len() == 0 || pre_keys.len() > MAX_PRE_KEYS {
            return Err(INPUT_PARAMETER_ERROR);
        }
        if self.find(pre_keys, final_key).is_some() {
            return Ok(());
        }
        let slot = match self.first_free() {
            Some(slot) => slot,
            None => {
                return Err(INPUT_PARAMETER_ERROR);
            },
        };
        let ghost old_slots = self.view_slots();
        let res = add_monitor(slot);
        match res {
            Ok(hotkey) => {
                let keys = copy_keys(pre_keys);
                let ghost h = hotkey;
                self.slots.set(slot, Some(Subscription { pre_keys: keys, final_key, hotkey }));
                proof {
                    let new_slots = self.view_slots();
                    assert(new_slots =~= old_slots.update(
                        slot as int,
                        Some((pre_keys@, final_key, h)),
                    ));
                    assert forall|i: int, j: int|
                        0 <= i < new_slots.len() && 0 <= j < new_slots.len() && i != j && (
                        #[trigger] new_slots[i]) is Some && (#[trigger] new_slots[j]) is Some
                        implies !slot_matches(new_slots[j], slot_keys(new_slots[i]), slot_final_key(new_slots[i])) by {
                        if i == slot as int {
                            assert(old_slots[j] == new_slots[j]);
                        } else if j == slot as int {
                            assert(old_slots[i] == new_slots[i]);
                        } else {
                            assert(old_slots[i] == new_slots[i]);
                            assert(old_slots[j] == new_slots[j]);
                        }
                    }
                }
                Ok(())
            },
            Err(code) => Err(code),
        }
    }

    /// Cancels the subscription of `pre_keys` + `final_key`.
    ///
    /// A combination that is not subscribed is a no-op that reports success.
    /// Otherwise the slot is freed and `remove_monitor` is called with the slot and the
    /// system hotkey object; it unregisters the monitor, destroys the object and
    /// returns the system's `Input_Result` code, which is reported as an error unless
    /// it is `INPUT_SUCCESS`.
    pub fn unregister<F: FnOnce(usize, H) -> i32>(
        &mut self,
        pre_keys: &[i32],
        final_key: i32,
        remove_monitor: F,
    ) -> (r: Result<(), i32>)
        requires
            old(self).wf(),
            forall|s: usize, h: H|
                s < old(self).view_slots().len() && slot_matches(
                    old(self).view_slots()[s as int],
                    pre_keys@,
                    final_key,
                ) && h == slot_hotkey(old(self).view_slots()[s as int]) ==> call_requires(
                    remove_monitor,
                    (s, h),
                ),
        ensures
            final(self).wf(),
            !is_subscribed(final(self).view_slots(), pre_keys@, final_key),
            !is_subscribed(old(self).view_slots(), pre_keys@, final_key) ==> r == Ok::<(), i32>(())
                && final(self).view_slots() == old(self).view_slots(),
            is_subscribed(old(self).view_slots(), pre_keys@, final_key) ==> exists|
                s: usize,
                code: i32,
            |
                {
                    &&& s < old(self).view_slots().len()
                    &&& slot_matches(old(self).view_slots()[s as int], pre_keys@, final_key)
                    &&& final(self).view_slots() == old(self).view_slots().update(s as int, None)
                    &&& call_ensures(remove_monitor, (s, slot_hotkey(old(self).view_slots()[s as int])), code)
                    &&& r == if code == INPUT_SUCCESS {
                        Ok::<(), i32>(())
                    } else {
                        Err::<(), i32>(code)
                    }
                },
    {
        let slot = match self.find(pre_keys, final_key) {
            Some(slot) => slot,
            None => {
                return Ok(());
            },
        };
        let ghost old_slots = self.view_slots();
        let ghost old_raw = self.slots@;
        let mut taken: Option<Subscription<H>> = None;
        std::mem::swap(&mut taken, &mut self.slots[slot]);
        assert(taken == old_raw[slot as int]);
        let subscription = taken.unwrap();
        proof {
            let new_slots = self.view_slots();
            assert(new_slots =~= old_slots.update(slot as int, None));
            assert forall|i: int, j: int|
                0 <= i < new_slots.len() && 0 <= j < new_slots.len() && i != j && (
                #[trigger] new_slots[i]) is Some && (#[trigger] new_slots[j]) is Some
                implies !slot_matches(new_slots[j], slot_keys(new_slots[i]), slot_final_key(new_slots[i])) by {
                assert(old_slots[i] == new_slots[i]);
                assert(old_slots[j] == new_slots[j]);
            }
        }
        let ghost h = subscription.hotkey;
        assert(old_slots[slot as int] == slot_view(Some(subscription)));
        assert(slot_hotkey(old_slots[slot as int]) == h);
        proof {
            lemma_freed_is_unsubscribed(old_slots, slot as int, pre_keys@, final_key);
        }
        let code = remove_monitor(slot, subscription.hotkey);
        assert(call_ensures(remove_monitor, (slot, h), code));
        if code != INPUT_SUCCESS {
            return Err(code);
        }
        Ok(())
    }
}

/// Installs the handler every subscribed hotkey reports through, replacing the one
/// installed earlier. The subscriptions stay valid: the callback the system holds is
/// the slot's trampoline, not the handler.
pub fn set_hotkey_triggered_handler<F>(slot: &mut Option<F>, handler: F)
    ensures
        *final(slot) == Some(handler),
{
    *slot = Some(handler);
}

/// After a subscription is stored in a slot, the combination is subscribed.
pub proof fn lemma_stored_is_subscribed<H>(
    slots: Seq<SlotView<H>>,
    s: int,
    pre_keys: Seq<i32>,
    final_key: i32,
    hotkey: H,
)
    requires
        0 <= s < slots.len(),
    ensures
        is_subscribed(slots.update(s, Some((pre_keys, final_key, hotkey))), pre_keys, final_key),
{
    let n = slots.update(s, Some((pre_keys, final_key, hotkey)));
    assert(slot_matches(n[s], pre_keys, final_key));
}

/// Freeing the slot a combination is subscribed in unsubscribes it: no other slot
/// holds the same combination.
pub proof fn lemma_freed_is_unsubscribed<H>(
    slots: Seq<SlotView<H>>,
    s: int,
    pre_keys: Seq<i32>,
    final_key: i32,
)
    requires
        slots_unique(slots),
        0 <= s < slots.len(),
        slot_matches(slots[s], pre_keys, final_key),
    ensures
        !is_subscribed(slots.update(s, None), pre_keys, final_key),
{
    let n = slots.update(s, None);
    if is_subscribed(n, pre_keys, final_key) {
        let i = choose|i: int| 0 <= i < n.len() && slot_matches(#[trigger] n[i], pre_keys, final_key);
        assert(i != s);
        assert(slots[i] == n[i]);
        assert(slots[s] is Some && slots[i] is Some);
        assert(!slot_matches(slots[i], slot_keys(slots[s]), slot_final_key(slots[s])));
    }
}

} // verus!
