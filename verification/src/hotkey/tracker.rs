//! The push-to-talk key state machine.
//!
//! Each key event read from the input devices (a key code and a value: 1 for
//! press, 0 for release, 2 for auto-repeat) updates which modifiers are held
//! and whether the hotkey is down, and may produce a [`HotkeyEvent`].

use vstd::prelude::*;

use super::keys::KeyCode;
use super::{HotkeyBindings, HotkeyEvent};

verus! {

/// The abstract state of the key tracker.
pub struct TrackerView {
    /// `held[i]`: whether modifier `i` of the bindings is held
    pub held: Seq<bool>,
    /// Whether the model modifier is held
    pub model_held: bool,
    /// Whether the complex post-processing modifier is held
    pub complex_held: bool,
    /// Whether the hotkey is down (a press was reported and no release yet)
    pub pressed: bool,
}

/// The state right after start-up or a reset: nothing held.
pub open spec fn idle_view(modifier_count: nat) -> TrackerView {
    TrackerView {
        held: Seq::new(modifier_count, |i: int| false),
        model_held: false,
        complex_held: false,
        pressed: false,
    }
}

/// A press (1) sets, a release (0) clears, any other value leaves the flag.
pub open spec fn updated_flag(flag: bool, value: i32) -> bool {
    if value == 1 {
        true
    } else if value == 0 {
        false
    } else {
        flag
    }
}

/// Tracks a modifier: only events of that modifier key change it.
pub open spec fn updated_modifier(modifier: Option<KeyCode>, key: KeyCode, value: i32, held: bool) -> bool {
    match modifier {
        Some(m) => if m == key {
            updated_flag(held, value)
        } else {
            held
        },
        None => held,
    }
}

pub open spec fn updated_held(b: HotkeyBindings, held: Seq<bool>, key: KeyCode, value: i32) -> Seq<
    bool,
> {
    Seq::new(
        held.len(),
        |i: int|
            if b.modifier_keys@[i] == key {
                updated_flag(held[i], value)
            } else {
                held[i]
            },
    )
}

pub open spec fn all_held(held: Seq<bool>) -> bool {
    forall|i: int| 0 <= i < held.len() ==> #[trigger] held[i]
}

/// One key event: the next state and the event reported, if any.
pub open spec fn key_step(b: HotkeyBindings, s: TrackerView, key: KeyCode, value: i32) -> (
    TrackerView,
    Option<HotkeyEvent>,
) {
    let held = updated_held(b, s.held, key, value);
    let model_held = updated_modifier(b.model_modifier, key, value, s.model_held);
    let complex_held = updated_modifier(b.complex_post_process_modifier, key, value, s.complex_held);
    let tracked_state = TrackerView { held, model_held, complex_held, pressed: s.pressed };
    if b.cancel_key == Some(key) && value == 1 {
        (tracked_state, Some(HotkeyEvent::Cancel))
    } else {
        let is_target = key == b.target_key;
        let is_edit = !is_target && b.edit_key == Some(key);
        if (is_target || is_edit) && all_held(held) {
            if value == 1 && !s.pressed {
                (
                    TrackerView { pressed: true, ..tracked_state },
                    Some(
                        HotkeyEvent::Pressed {
                            is_edit,
                            model_override: if model_held {
                                b.secondary_model
                            } else {
                                None
                            },
                            complex_process_override: if b.complex_post_process_modifier is Some {
                                Some(complex_held)
                            } else {
                                None
                            },
                        },
                    ),
                )
            } else if value == 0 && s.pressed {
                (TrackerView { pressed: false, ..tracked_state }, Some(HotkeyEvent::Released))
            } else {
                (tracked_state, None)
            }
        } else {
            (tracked_state, None)
        }
    }
}

/// A batch of key events processed in order: the final state and the events reported.
pub open spec fn run_events(b: HotkeyBindings, s: TrackerView, events: Seq<(KeyCode, i32)>) -> (
    TrackerView,
    Seq<HotkeyEvent>,
)
    decreases events.len(),
{
    if events.len() == 0 {
        (s, seq![])
    } else {
        let (mid, reported) = run_events(b, s, events.drop_last());
        let (next, event) = key_step(b, mid, events.last().0, events.last().1);
        match event {
            Some(e) => (next, reported.push(e)),
            None => (next, reported),
        }
    }
}

/// Tracks held modifiers and the hotkey state for one set of bindings.
pub struct KeyTracker {
    bindings: HotkeyBindings,
    held_modifiers: Vec<bool>,
    model_modifier_held: bool,
    complex_post_process_modifier_held: bool,
    is_pressed: bool,
}

impl KeyTracker {
    #[verifier::type_invariant]
    spec fn well_formed(self) -> bool {
        self.held_modifiers@.len() == self.bindings.modifier_keys@.len()
    }

    pub closed spec fn bindings(self) -> HotkeyBindings {
        self.bindings
    }

    pub closed spec fn view(self) -> TrackerView {
        TrackerView {
            held: self.held_modifiers@,
            model_held: self.model_modifier_held,
            complex_held: self.complex_post_process_modifier_held,
            pressed: self.is_pressed,
        }
    }

    /// A tracker with nothing held.
    pub fn new(bindings: HotkeyBindings) -> (t: Self)
        ensures
            t.bindings() == bindings,
            t.view() == idle_view(bindings.modifier_keys@.len()),
    {
        let held = Self::nothing_held(bindings.modifier_keys.len());
        let t = KeyTracker {
            bindings,
            held_modifiers: held,
            model_modifier_held: false,
            complex_post_process_modifier_held: false,
            is_pressed: false,
        };
        assert(t.view().held =~= idle_view(t.bindings.modifier_keys@.len()).held);
        t
    }

    fn nothing_held(n: usize) -> (v: Vec<bool>)
        ensures
            v@ == Seq::new(n as nat, |i: int| false),
    {
        let mut v: Vec<bool> = Vec::new();
        let mut i: usize = 0;
        while i < n
            invariant
                i <= n,
                v@ == Seq::new(i as nat, |j: int| false),
            decreases n - i,
        {
            v.push(false);
            i += 1;
            assert(v@ =~= Seq::new(i as nat, |j: int| false));
        }
        v
    }

    /// The bindings the tracker follows.
    pub fn key_bindings(&self) -> (b: &HotkeyBindings)
        ensures
            *b == self.bindings(),
    {
        &self.bindings
    }

    /// Whether the hotkey is currently down.
    pub fn is_pressed(&self) -> (r: bool)
        ensures
            r == self.view().pressed,
    {
        self.is_pressed
    }

    /// Forget every held key (used when devices change or detection is switched off).
    pub fn reset(&mut self)
        ensures
            final(self).bindings() == old(self).bindings(),
            final(self).view() == idle_view(old(self).bindings().modifier_keys@.len()),
    {
        proof {
            use_type_invariant(&*self);
        }
        let held = Self::nothing_held(self.bindings.modifier_keys.len());
        self.held_modifiers = held;
        self.model_modifier_held = false;
        self.complex_post_process_modifier_held = false;
        self.is_pressed = false;
        assert(self.view().held =~= idle_view(self.bindings.modifier_keys@.len()).held);
    }

    fn flag_after(flag: bool, value: i32) -> (r: bool)
        ensures
            r == updated_flag(flag, value),
    {
        if value == 1 {
            true
        } else if value == 0 {
            false
        } else {
            flag
        }
    }

    /// Process one key event from an input device.
    pub fn handle_key_event(&mut self, key: KeyCode, value: i32) -> (event: Option<HotkeyEvent>)
        ensures
            final(self).bindings() == old(self).bindings(),
            (final(self).view(), event) == key_step(old(self).bindings(), old(self).view(), key, value),
    {
        proof {
            use_type_invariant(&*self);
        }
        let ghost b = self.bindings;
        let ghost s = self.view();
        let n = self.held_modifiers.len();
        // Track modifier state
        let mut held = Self::nothing_held(0);
        let mut i: usize = 0;
        while i < n
            invariant
                n == self.held_modifiers@.len(),
                n == b.modifier_keys@.len(),
                b == self.bindings,
                s.held == self.held_modifiers@,
                i <= n,
                held@ == updated_held(b, s.held, key, value).take(i as int),
            decreases n - i,
        {
            let h = if self.bindings.modifier_keys[i] == key {
                Self::flag_after(self.held_modifiers[i], value)
            } else {
                self.held_modifiers[i]
            };
            held.push(h);
            i += 1;
            assert(held@ =~= updated_held(b, s.held, key, value).take(i as int));
        }
        assert(held@ =~= updated_held(b, s.held, key, value));
        self.held_modifiers = held;
        // Track model modifier state
        if let Some(mm) = self.bindings.model_modifier {
            if key == mm {
                self.model_modifier_held = Self::flag_after(self.model_modifier_held, value);
            }
        }
        // Track complex post-process modifier state
        if let Some(ppm) = self.bindings.complex_post_process_modifier {
            if key == ppm {
                self.complex_post_process_modifier_held = Self::flag_after(
                    self.complex_post_process_modifier_held,
                    value,
                );
            }
        }
        // Check cancel key first (if configured)
        if let Some(cancel) = self.bindings.cancel_key {
            if key == cancel && value == 1 {
                return Some(HotkeyEvent::Cancel);
            }
        }
        let is_target = key == self.bindings.target_key;
        // if edit_key is the same as target_key, the edit key is ignored
        let is_edit = !is_target && match self.bindings.edit_key {
            Some(ek) => key == ek,
            None => false,
        };
        if !(is_target || is_edit) {
            return None;
        }
        let mut modifiers_satisfied = true;
        let mut j: usize = 0;
        while j < n
            invariant
                n == self.held_modifiers@.len(),
                j <= n,
                modifiers_satisfied == (forall|t: int| 0 <= t < j ==> #[trigger] self.held_modifiers@[t]),
            decreases n - j,
        {
            if !self.held_modifiers[j] {
                modifiers_satisfied = false;
            }
            j += 1;
        }
        if !modifiers_satisfied {
            return None;
        }
        if value == 1 && !self.is_pressed {
            self.is_pressed = true;
            let model_override = if self.model_modifier_held {
                self.bindings.secondary_model.clone()
            } else {
                None
            };
            let complex_process_override = if self.bindings.complex_post_process_modifier.is_some() {
                Some(self.complex_post_process_modifier_held)
            } else {
                None
            };
            Some(HotkeyEvent::Pressed { is_edit, model_override, complex_process_override })
        } else if value == 0 && self.is_pressed {
            self.is_pressed = false;
            Some(HotkeyEvent::Released)
        } else {
            None
        }
    }

    /// Process one poll of the input devices. With detection switched off the
    /// events are discarded and every held key forgotten; otherwise the events
    /// are processed in order and the reported events returned in order.
    pub fn handle_poll(&mut self, detection_enabled: bool, events: &Vec<(KeyCode, i32)>) -> (reported:
        Vec<HotkeyEvent>)
        ensures
            final(self).bindings() == old(self).bindings(),
            !detection_enabled ==> final(self).view() == idle_view(
                old(self).bindings().modifier_keys@.len(),
            ) && reported@.len() == 0,
            detection_enabled ==> (final(self).view(), reported@) == run_events(
                old(self).bindings(),
                old(self).view(),
                events@,
            ),
    {
        let mut reported: Vec<HotkeyEvent> = Vec::new();
        if !detection_enabled {
            self.reset();
            return reported;
        }
        let ghost b = self.bindings();
        let ghost start = self.view();
        let mut i: usize = 0;
        while i < events.len()
            invariant
                i <= events@.len(),
                self.bindings() == b,
                (self.view(), reported@) == run_events(b, start, events@.take(i as int)),
            decreases events.len() - i,
        {
            let (key, value) = events[i];
            let ghost pre = events@.take(i as int);
            let ghost next = events@.take(i + 1);
            assert(next.drop_last() =~= pre);
            assert(next.last() == (key, value));
            match self.handle_key_event(key, value) {
                Some(e) => reported.push(e),
                None => {},
            }
            i += 1;
        }
        assert(events@.take(i as int) =~= events@);
        reported
    }
}

// ---------------------------------------------------------------------------
// Laws of the key state machine
// ---------------------------------------------------------------------------

/// Auto-repeat events (value 2), and any value other than press or release,
/// change nothing and report nothing.
pub proof fn lemma_repeats_are_ignored(b: HotkeyBindings, s: TrackerView, key: KeyCode, value: i32)
    requires
        value != 0,
        value != 1,
        s.held.len() == b.modifier_keys@.len(),
    ensures
        key_step(b, s, key, value) == (s, None::<HotkeyEvent>),
{
    assert(updated_held(b, s.held, key, value) =~= s.held);
}

/// Presses and releases alternate: a press is reported only while the hotkey
/// is up and puts it down, a release only while it is down and puts it up,
/// and every other step leaves the hotkey as it was.
pub proof fn lemma_press_release_alternate(b: HotkeyBindings, s: TrackerView, key: KeyCode, value: i32)
    ensures
        ({
            let (next, event) = key_step(b, s, key, value);
            &&& event matches Some(HotkeyEvent::Pressed { .. }) ==> !s.pressed && next.pressed
            &&& event matches Some(HotkeyEvent::Released) ==> s.pressed && !next.pressed
            &&& !(event matches Some(HotkeyEvent::Pressed { .. })) && !(event matches Some(
                HotkeyEvent::Released,
            )) ==> next.pressed == s.pressed
        }),
{
}

/// A press is reported only for the hotkey or the edit key, when the key goes
/// down with every modifier held; it is in edit mode exactly when it came from
/// an edit key distinct from the hotkey.
pub proof fn lemma_press_needs_key_and_modifiers(
    b: HotkeyBindings,
    s: TrackerView,
    key: KeyCode,
    value: i32,
)
    ensures
        ({
            let (next, event) = key_step(b, s, key, value);
            event matches Some(HotkeyEvent::Pressed { is_edit, .. }) ==> {
                &&& value == 1
                &&& all_held(next.held)
                &&& (key == b.target_key || b.edit_key == Some(key))
                &&& is_edit == (key != b.target_key)
            }
        }),
{
}

/// The cancel event is reported exactly when the configured cancel key goes down.
pub proof fn lemma_cancel_on_cancel_press(b: HotkeyBindings, s: TrackerView, key: KeyCode, value: i32)
    ensures
        (key_step(b, s, key, value).1 == Some(HotkeyEvent::Cancel)) <==> (b.cancel_key == Some(key)
            && value == 1),
{
}

/// The secondary model is requested exactly when the model modifier is held at
/// the press, and complex post-processing is chosen only when its modifier is
/// configured, following whether it is held.
pub proof fn lemma_press_overrides(b: HotkeyBindings, s: TrackerView, key: KeyCode, value: i32)
    ensures
        ({
            let (next, event) = key_step(b, s, key, value);
            event matches Some(HotkeyEvent::Pressed { model_override, complex_process_override, .. })
                ==> {
                &&& model_override == (if next.model_held {
                    b.secondary_model
                } else {
                    None
                })
                &&& complex_process_override == (if b.complex_post_process_modifier is Some {
                    Some(next.complex_held)
                } else {
                    None
                })
            }
        }),
{
}

/// Whether reported events keep presses and releases alternating, starting
/// from a hotkey that is down (`pressed`) or up; if so, whether it ends down.
pub open spec fn alternation(events: Seq<HotkeyEvent>, pressed: bool) -> Option<bool>
    decreases events.len(),
{
    if events.len() == 0 {
        Some(pressed)
    } else {
        match alternation(events.drop_last(), pressed) {
            None => None,
            Some(p) => match events.last() {
                HotkeyEvent::Pressed { .. } => if !p {
                    Some(true)
                } else {
                    None
                },
                HotkeyEvent::Released => if p {
                    Some(false)
                } else {
                    None
                },
                HotkeyEvent::Cancel => Some(p),
            },
        }
    }
}

/// Over any sequence of key events, the reported presses and releases
/// alternate: never two presses without a release between them, never a
/// release without a press, and the tracker ends down exactly after a press
/// that was not yet released.
pub proof fn lemma_reported_presses_alternate(
    b: HotkeyBindings,
    s: TrackerView,
    events: Seq<(KeyCode, i32)>,
)
    ensures
        alternation(run_events(b, s, events).1, s.pressed) == Some(run_events(b, s, events).0.pressed),
    decreases events.len(),
{
    if events.len() > 0 {
        let rest = events.drop_last();
        lemma_reported_presses_alternate(b, s, rest);
        let (mid, reported) = run_events(b, s, rest);
        lemma_press_release_alternate(b, mid, events.last().0, events.last().1);
        let (next, event) = key_step(b, mid, events.last().0, events.last().1);
        match event {
            Some(e) => {
                assert(reported.push(e).drop_last() =~= reported);
            },
            None => {},
        }
    }
}


/// Whether a key is down after a sequence of events, starting from
/// `initially`: its latest press (1) or release (0) decides; auto-repeats and
/// other keys' events change nothing.
pub open spec fn key_down_after(events: Seq<(KeyCode, i32)>, key: KeyCode, initially: bool) -> bool
    decreases events.len(),
{
    if events.len() == 0 {
        initially
    } else {
        let (k, v) = events.last();
        if k == key && v == 1 {
            true
        } else if k == key && v == 0 {
            false
        } else {
            key_down_after(events.drop_last(), key, initially)
        }
    }
}

/// A modifier counts as held exactly when its own key is down: after any
/// sequence of events, modifier `i` is held iff its latest press or release
/// was a press (or, with neither, iff it was held before). In particular a
/// release clears it.
pub proof fn lemma_modifiers_follow_their_key(b: HotkeyBindings, s: TrackerView, events: Seq<(KeyCode, i32)>)
    requires
        s.held.len() == b.modifier_keys@.len(),
    ensures
        run_events(b, s, events).0.held.len() == s.held.len(),
        forall|i: int|
            0 <= i < s.held.len() ==> #[trigger] run_events(b, s, events).0.held[i] == key_down_after(
                events,
                b.modifier_keys@[i],
                s.held[i],
            ),
    decreases events.len(),
{
    if events.len() > 0 {
        lemma_modifiers_follow_their_key(b, s, events.drop_last());
    }
}

/// No press is reported while a modifier is up: if a required modifier's
/// latest event, the new one included, is a release (or it has had none and
/// was not held), a hotkey event reports no press.
pub proof fn lemma_no_press_with_a_released_modifier(
    b: HotkeyBindings,
    s: TrackerView,
    events: Seq<(KeyCode, i32)>,
    key: KeyCode,
    value: i32,
    i: int,
)
    requires
        s.held.len() == b.modifier_keys@.len(),
        0 <= i < s.held.len(),
        !key_down_after(events.push((key, value)), b.modifier_keys@[i], s.held[i]),
    ensures
        !(key_step(b, run_events(b, s, events).0, key, value).1 matches Some(
            HotkeyEvent::Pressed { .. },
        )),
{
    lemma_modifiers_follow_their_key(b, s, events.push((key, value)));
    assert(events.push((key, value)).drop_last() =~= events);
    let mid = run_events(b, s, events).0;
    let next = key_step(b, mid, key, value).0;
    assert(run_events(b, s, events.push((key, value))).0 == next);
    assert(!next.held[i]);
}

} // verus!
