//! Detection of an isolated tap of the designated (fn/Globe) key.
//!
//! Two monitors feed the same state through the same transition: an observer
//! that only watches, and an interceptor that may also swallow an event.  A
//! toggle fires when the designated key is released after a press during
//! which nothing else happened on the keyboard.

use vstd::prelude::*;

verus! {

/// Bits of a modifier word that do not depend on the device.
pub const DEVICE_INDEPENDENT_MASK: u64 = 0xffff_0000;

/// Bit of the caps-lock state, which is ignored when a press is judged.
pub const CAPS_LOCK: u64 = 0x0001_0000;

/// Bit of the designated key.
pub const FUNCTION: u64 = 0x0080_0000;

/// The modifier word of a key event, as the window system reports it.
#[derive(Clone, Copy, Debug, PartialEq, Eq)]
pub struct ModifierFlags {
    pub bits: u64,
}

impl ModifierFlags {
    /// The designated key is among the active modifiers.
    pub open spec fn has_designated(self) -> bool {
        (self.bits & DEVICE_INDEPENDENT_MASK) & FUNCTION == FUNCTION
    }

    /// The active modifiers, caps lock aside, are exactly the designated key.
    pub open spec fn only_designated(self) -> bool {
        (self.bits & DEVICE_INDEPENDENT_MASK) & !CAPS_LOCK == FUNCTION
    }

    pub fn new(bits: u64) -> (flags: ModifierFlags)
        ensures
            flags.bits == bits,
    {
        ModifierFlags { bits }
    }

    pub fn fn_down(&self) -> (down: bool)
        ensures
            down == self.has_designated(),
    {
        (self.bits & DEVICE_INDEPENDENT_MASK) & FUNCTION == FUNCTION
    }

    pub fn fn_only(&self) -> (only: bool)
        ensures
            only == self.only_designated(),
    {
        (self.bits & DEVICE_INDEPENDENT_MASK) & !CAPS_LOCK == FUNCTION
    }
}

/// A modifier word that holds nothing but the designated key holds it.
pub proof fn lemma_only_implies_has(flags: ModifierFlags)
    requires
        flags.only_designated(),
    ensures
        flags.has_designated(),
{
    let b = flags.bits;
    assert((b & 0xffff_0000u64) & !0x0001_0000u64 == 0x0080_0000u64 ==> (b & 0xffff_0000u64)
        & 0x0080_0000u64 == 0x0080_0000u64) by (bit_vector);
}

/// What a monitor saw.
#[derive(Clone, Copy, Debug, PartialEq, Eq)]
pub enum KeyEvent {
    /// The set of active modifiers changed to `flags`.
    FlagsChanged { flags: ModifierFlags },
    /// An ordinary key went down.
    KeyDown,
    /// An ordinary key went up.
    KeyUp,
    /// Any other event.
    Other,
}

impl KeyEvent {
    /// The designated key is reported as held.
    pub open spec fn is_press(self) -> bool {
        self matches KeyEvent::FlagsChanged { flags } && flags.has_designated()
    }

    /// The designated key is reported as held, with no other modifier.
    pub open spec fn is_isolated_press(self) -> bool {
        self matches KeyEvent::FlagsChanged { flags } && flags.only_designated()
    }

    /// The designated key is reported as no longer held.
    pub open spec fn is_release(self) -> bool {
        self matches KeyEvent::FlagsChanged { flags } && !flags.has_designated()
    }

    /// Activity that turns a held designated key into part of a chord.
    pub open spec fn disqualifies(self) -> bool {
        match self {
            KeyEvent::FlagsChanged { flags } => flags.has_designated() && !flags.only_designated(),
            KeyEvent::KeyDown => true,
            KeyEvent::KeyUp => true,
            KeyEvent::Other => false,
        }
    }
}

/// The detector as a mathematical value.
pub struct GestureModel {
    /// The designated key is held.
    pub fn_active: bool,
    /// The current hold is still a candidate for an isolated tap.
    pub pending_toggle: bool,
}

impl GestureModel {
    /// A candidate tap exists only while the key is held.
    pub open spec fn wf(self) -> bool {
        self.pending_toggle ==> self.fn_active
    }

    pub open spec fn idle() -> GestureModel {
        GestureModel { fn_active: false, pending_toggle: false }
    }
}

/// One transition of the detector: the next state, and whether the toggle fires.
pub open spec fn step(s: GestureModel, e: KeyEvent) -> (GestureModel, bool) {
    match e {
        KeyEvent::FlagsChanged { flags } => {
            let down = flags.has_designated();
            let only = flags.only_designated();
            if down && !s.fn_active {
                (GestureModel { fn_active: true, pending_toggle: only }, false)
            } else if down && !only {
                (GestureModel { fn_active: true, pending_toggle: false }, false)
            } else if !down && s.fn_active {
                (GestureModel { fn_active: false, pending_toggle: false }, s.pending_toggle)
            } else {
                (s, false)
            }
        },
        KeyEvent::KeyDown | KeyEvent::KeyUp => if s.fn_active {
            (GestureModel { fn_active: true, pending_toggle: false }, false)
        } else {
            (s, false)
        },
        KeyEvent::Other => (s, false),
    }
}

/// The interceptor's verdict, from the state it saw before the transition,
/// the event, and whether it read the key as held afterwards: it swallows
/// the release that ends an isolated tap, and nothing else.
pub open spec fn should_swallow(before: GestureModel, e: KeyEvent, active_after: bool) -> bool {
    e.is_release() && before.pending_toggle && before.fn_active && !active_after
}

/// The state after the first `n` events of `events`, starting from `s`.
pub open spec fn state_after(s: GestureModel, events: Seq<KeyEvent>, n: int) -> GestureModel
    decreases n,
{
    if n <= 0 {
        s
    } else {
        step(state_after(s, events, n - 1), events[n - 1]).0
    }
}

/// Event `i` of `events` fires the toggle, starting from `s`.
pub open spec fn fires_at(s: GestureModel, events: Seq<KeyEvent>, i: int) -> bool {
    step(state_after(s, events, i), events[i]).1
}

/// How many of the first `n` events fire the toggle.
pub open spec fn toggles_in(s: GestureModel, events: Seq<KeyEvent>, n: int) -> nat
    decreases n,
{
    if n <= 0 {
        0
    } else {
        toggles_in(s, events, n - 1) + if fires_at(s, events, n - 1) {
            1nat
        } else {
            0nat
        }
    }
}

/// What the interceptor decided for one event.
#[derive(Clone, Copy, Debug, PartialEq, Eq)]
pub struct Interception {
    /// The session is to be toggled.
    pub toggle: bool,
    /// The event is to be kept from the rest of the system.
    pub swallow: bool,
}

/// The detector shared by both monitors.
#[derive(Debug, PartialEq, Eq)]
pub struct KeyGestureState {
    fn_active: bool,
    pending_toggle: bool,
}

impl View for KeyGestureState {
    type V = GestureModel;

    closed spec fn view(&self) -> GestureModel {
        GestureModel { fn_active: self.fn_active, pending_toggle: self.pending_toggle }
    }
}

impl KeyGestureState {
    #[verifier::type_invariant]
    spec fn consistent(self) -> bool {
        self.pending_toggle ==> self.fn_active
    }

    /// A detector with the designated key up.
    pub fn new() -> (state: KeyGestureState)
        ensures
            state@ == GestureModel::idle(),
    {
        KeyGestureState { fn_active: false, pending_toggle: false }
    }

    pub fn fn_active(&self) -> (active: bool)
        ensures
            active == self@.fn_active,
    {
        self.fn_active
    }

    pub fn pending_toggle(&self) -> (pending: bool)
        ensures
            pending == self@.pending_toggle,
            pending ==> self@.fn_active,
    {
        proof {
            use_type_invariant(self);
        }
        self.pending_toggle
    }

    /// Feeds one event to the detector.  Returns whether the toggle fires.
    pub fn handle_fn_key_event(&mut self, event: &KeyEvent) -> (toggle: bool)
        ensures
            old(self)@.wf(),
            final(self)@.wf(),
            final(self)@ == step(old(self)@, *event).0,
            toggle == step(old(self)@, *event).1,
    {
        proof {
            use_type_invariant(&*self);
        }
        match event {
            KeyEvent::FlagsChanged { flags } => {
                let down = flags.fn_down();
                let only = flags.fn_only();
                proof {
                    if only {
                        lemma_only_implies_has(*flags);
                    }
                }
                let was_down = self.fn_active;
                if down && !was_down {
                    self.fn_active = true;
                    self.pending_toggle = only;
                    false
                } else if down && !only {
                    self.pending_toggle = false;
                    false
                } else if !down && was_down {
                    let fire = self.pending_toggle;
                    self.pending_toggle = false;
                    self.fn_active = false;
                    fire
                } else {
                    false
                }
            },
            KeyEvent::KeyDown | KeyEvent::KeyUp => {
                if self.fn_active {
                    self.pending_toggle = false;
                }
                false
            },
            KeyEvent::Other => false,
        }
    }

    /// Feeds one event to the detector on behalf of the interceptor, which
    /// also decides whether the event is swallowed.  With the detector to
    /// itself for the whole call, the interceptor swallows exactly the event
    /// that fires the toggle.
    pub fn intercept(&mut self, event: &KeyEvent) -> (verdict: Interception)
        ensures
            final(self)@.wf(),
            final(self)@ == step(old(self)@, *event).0,
            verdict.toggle == step(old(self)@, *event).1,
            verdict.swallow == should_swallow(old(self)@, *event, final(self)@.fn_active),
            verdict.swallow == verdict.toggle,
    {
        let was_active = self.fn_active;
        let was_pending = self.pending_toggle;
        let toggle = self.handle_fn_key_event(event);
        let swallow = swallows(was_active, was_pending, event, self.fn_active);
        Interception { toggle, swallow }
    }
}

/// The interceptor's verdict from what it read by itself: the state before
/// it fed the event to the detector, and whether the key is held afterwards.
/// This is for an interceptor that shares the detector with the observer
/// and reads it in separate steps.
pub fn swallows(
    was_active: bool,
    was_pending: bool,
    event: &KeyEvent,
    active_after: bool,
) -> (swallow: bool)
    ensures
        swallow == should_swallow(
            GestureModel { fn_active: was_active, pending_toggle: was_pending },
            *event,
            active_after,
        ),
{
    match event {
        KeyEvent::FlagsChanged { flags } => !flags.fn_down() && was_pending && was_active
            && !active_after,
        _ => false,
    }
}

/// Well-formedness survives every transition.
pub proof fn lemma_step_preserves_wf(s: GestureModel, e: KeyEvent)
    requires
        s.wf(),
    ensures
        step(s, e).0.wf(),
{
    if let KeyEvent::FlagsChanged { flags } = e {
        if flags.only_designated() {
            lemma_only_implies_has(flags);
        }
    }
}

/// Well-formedness survives every run.
pub proof fn lemma_run_preserves_wf(s: GestureModel, events: Seq<KeyEvent>, n: int)
    requires
        s.wf(),
        n <= events.len(),
    ensures
        state_after(s, events, n).wf(),
    decreases n,
{
    if n > 0 {
        lemma_run_preserves_wf(s, events, n - 1);
        lemma_step_preserves_wf(state_after(s, events, n - 1), events[n - 1]);
    }
}

/// After a press at `i` and no release since, the detector has the key as held.
proof fn lemma_held(s: GestureModel, events: Seq<KeyEvent>, i: int, n: int)
    requires
        0 <= i < n <= events.len(),
        events[i].is_press(),
        forall|m: int| i < m < n ==> !(#[trigger] events[m]).is_release(),
    ensures
        state_after(s, events, n).fn_active,
    decreases n,
{
    if n > i + 1 {
        lemma_held(s, events, i, n - 1);
        assert(!events[n - 1].is_release());
    }
}

/// After a disqualifying event at `k` during a hold that began at `i`, the
/// hold is no candidate any more, as long as the key stays down.
proof fn lemma_disarmed(s: GestureModel, events: Seq<KeyEvent>, i: int, k: int, n: int)
    requires
        0 <= i <= k < n <= events.len(),
        events[i].is_press(),
        events[k].disqualifies(),
        forall|m: int| i < m < n ==> !(#[trigger] events[m]).is_release(),
    ensures
        state_after(s, events, n).fn_active,
        !state_after(s, events, n).pending_toggle,
    decreases n,
{
    if n == k + 1 {
        if i < k {
            lemma_held(s, events, i, k);
        }
    } else {
        lemma_disarmed(s, events, i, k, n - 1);
        assert(!events[n - 1].is_release());
    }
}

/// A candidate tap goes back to an isolated press: whenever the detector
/// holds a candidate after `n` events, some earlier event `i` pressed the
/// designated key alone while it was up, and nothing since has disqualified
/// or released it.
proof fn lemma_pending_origin(s: GestureModel, events: Seq<KeyEvent>, n: int) -> (i: int)
    requires
        s.wf(),
        !s.pending_toggle,
        0 <= n <= events.len(),
        state_after(s, events, n).pending_toggle,
    ensures
        0 <= i < n,
        events[i].is_isolated_press(),
        !state_after(s, events, i).fn_active,
        forall|m: int|
            i < m < n ==> !(#[trigger] events[m]).disqualifies() && !events[m].is_release(),
    decreases n,
{
    let before = state_after(s, events, n - 1);
    let e = events[n - 1];
    lemma_run_preserves_wf(s, events, n - 1);
    if e is FlagsChanged && e->flags.has_designated() && !before.fn_active {
        n - 1
    } else {
        assert(before.pending_toggle);
        assert(before.fn_active);
        let i = lemma_pending_origin(s, events, n - 1);
        assert forall|m: int| i < m < n implies !(#[trigger] events[m]).disqualifies()
            && !events[m].is_release() by {
            if m == n - 1 {
                assert(!e.disqualifies());
                assert(!e.is_release());
            }
        }
        i
    }
}

/// A toggle fires only on the release that ends an isolated tap: if event
/// `j` fires, it releases the designated key, and some earlier event `i`
/// pressed that key alone while it was up, with no keystroke, no further
/// modifier and no release between the two.
pub proof fn toggle_requires_isolated_tap(
    s: GestureModel,
    events: Seq<KeyEvent>,
    j: int,
) -> (i: int)
    requires
        s.wf(),
        !s.pending_toggle,
        0 <= j < events.len(),
        fires_at(s, events, j),
    ensures
        0 <= i < j,
        events[i].is_isolated_press(),
        !state_after(s, events, i).fn_active,
        events[j].is_release(),
        forall|m: int|
            i < m < j ==> !(#[trigger] events[m]).disqualifies() && !events[m].is_release(),
{
    lemma_pending_origin(s, events, j)
}

/// One tap, one toggle: between two events that fire there is a fresh
/// isolated press of the designated key.
pub proof fn one_toggle_per_tap(
    s: GestureModel,
    events: Seq<KeyEvent>,
    j1: int,
    j2: int,
) -> (i: int)
    requires
        s.wf(),
        !s.pending_toggle,
        0 <= j1 < j2 < events.len(),
        fires_at(s, events, j1),
        fires_at(s, events, j2),
    ensures
        j1 < i < j2,
        events[i].is_isolated_press(),
        !state_after(s, events, i).fn_active,
{
    let i = toggle_requires_isolated_tap(s, events, j2);
    lemma_only_implies_has(events[i]->flags);
    if i < j1 {
        assert(!events[j1].is_release());
    }
    i
}

/// A chord never toggles: when the designated key goes down at `i`, stays
/// down until `j`, and a keystroke or another modifier is seen at some `k`
/// in between, event `j` does not fire, whatever the state before.
pub proof fn chord_never_toggles(s: GestureModel, events: Seq<KeyEvent>, i: int, k: int, j: int)
    requires
        0 <= i <= k < j < events.len(),
        events[i].is_press(),
        events[k].disqualifies(),
        forall|m: int| i < m < j ==> !(#[trigger] events[m]).is_release(),
    ensures
        !fires_at(s, events, j),
{
    lemma_disarmed(s, events, i, k, j);
}

/// The number of isolated presses, made while the key was up, among the first
/// `n` events.
pub open spec fn taps_begun(s: GestureModel, events: Seq<KeyEvent>, n: int) -> nat
    decreases n,
{
    if n <= 0 {
        0
    } else {
        taps_begun(s, events, n - 1) + if events[n - 1].is_isolated_press() && !state_after(
            s,
            events,
            n - 1,
        ).fn_active {
            1nat
        } else {
            0nat
        }
    }
}

/// Toggles never outnumber taps: over any run, the toggles fired so far,
/// plus the candidate still held, are at most the isolated presses seen.
pub proof fn toggles_bounded_by_taps(s: GestureModel, events: Seq<KeyEvent>, n: int)
    requires
        s.wf(),
        !s.pending_toggle,
        0 <= n <= events.len(),
    ensures
        toggles_in(s, events, n) + (if state_after(s, events, n).pending_toggle {
            1nat
        } else {
            0nat
        }) <= taps_begun(s, events, n),
    decreases n,
{
    if n > 0 {
        toggles_bounded_by_taps(s, events, n - 1);
        lemma_run_preserves_wf(s, events, n - 1);
        let e = events[n - 1];
        if e is FlagsChanged && e->flags.only_designated() {
            lemma_only_implies_has(e->flags);
        }
    }
}

/// The interceptor swallows exactly the event that fires the toggle.
pub proof fn swallow_iff_toggle(s: GestureModel, e: KeyEvent)
    requires
        s.wf(),
    ensures
        should_swallow(s, e, step(s, e).0.fn_active) == step(s, e).1,
{
}

} // verus!
