use koe::gesture::{
    swallows, Interception, KeyEvent, KeyGestureState, ModifierFlags, CAPS_LOCK, FUNCTION,
};

const SHIFT: u64 = 1 << 17;
const COMMAND: u64 = 1 << 20;

fn flags(bits: u64) -> KeyEvent {
    KeyEvent::FlagsChanged { flags: ModifierFlags::new(bits) }
}

fn run(state: &mut KeyGestureState, events: &[KeyEvent]) -> usize {
    let mut toggles: usize = 0;
    for event in events {
        if state.handle_fn_key_event(event) {
            toggles += 1;
        }
        assert!(!state.pending_toggle() || state.fn_active());
    }
    toggles
}

#[test]
fn new_detector_has_the_key_up() {
    let state = KeyGestureState::new();
    assert!(!state.fn_active());
    assert!(!state.pending_toggle());
}

#[test]
fn flag_constants_have_the_documented_bits() {
    assert_eq!(FUNCTION, 1 << 23);
    assert_eq!(CAPS_LOCK, 1 << 16);
    assert!(ModifierFlags::new(FUNCTION).fn_down());
    assert!(ModifierFlags::new(FUNCTION).fn_only());
    assert!(ModifierFlags::new(FUNCTION | SHIFT).fn_down());
    assert!(!ModifierFlags::new(FUNCTION | SHIFT).fn_only());
    assert!(!ModifierFlags::new(SHIFT).fn_down());
    assert!(!ModifierFlags::new(0).fn_only());
}

#[test]
fn caps_lock_and_device_bits_do_not_spoil_a_press() {
    assert!(ModifierFlags::new(FUNCTION | CAPS_LOCK).fn_only());
    assert!(ModifierFlags::new(FUNCTION | 0x0100).fn_only());
    assert!(ModifierFlags::new(FUNCTION | 0xffff).fn_only());
    assert!(!ModifierFlags::new(FUNCTION | (1 << 31)).fn_only());
}

#[test]
fn isolated_tap_toggles_once() {
    let mut state = KeyGestureState::new();
    assert!(!state.handle_fn_key_event(&flags(FUNCTION)));
    assert!(state.fn_active());
    assert!(state.pending_toggle());
    assert!(state.handle_fn_key_event(&flags(0)));
    assert!(!state.fn_active());
    assert!(!state.pending_toggle());
    assert!(!state.handle_fn_key_event(&flags(0)));
}

#[test]
fn keystroke_during_the_hold_disqualifies() {
    let mut state = KeyGestureState::new();
    assert_eq!(run(&mut state, &[flags(FUNCTION), KeyEvent::KeyDown, flags(0)]), 0);
    let mut state = KeyGestureState::new();
    assert_eq!(run(&mut state, &[flags(FUNCTION), KeyEvent::KeyUp, flags(0)]), 0);
}

#[test]
fn another_modifier_during_the_hold_disqualifies() {
    let mut state = KeyGestureState::new();
    let events = [flags(FUNCTION), flags(FUNCTION | SHIFT), flags(FUNCTION), flags(0)];
    assert_eq!(run(&mut state, &events), 0);
}

#[test]
fn press_into_a_held_modifier_is_a_chord() {
    let mut state = KeyGestureState::new();
    let events = [flags(COMMAND), flags(COMMAND | FUNCTION), flags(COMMAND), flags(0)];
    assert_eq!(run(&mut state, &events), 0);
    assert!(!state.fn_active());
}

#[test]
fn caps_lock_change_during_the_hold_keeps_the_tap() {
    let mut state = KeyGestureState::new();
    let events = [flags(FUNCTION), flags(FUNCTION | CAPS_LOCK), flags(CAPS_LOCK)];
    assert_eq!(run(&mut state, &events), 1);
}

#[test]
fn other_events_during_the_hold_keep_the_tap() {
    let mut state = KeyGestureState::new();
    assert_eq!(run(&mut state, &[flags(FUNCTION), KeyEvent::Other, flags(0)]), 1);
}

#[test]
fn keystrokes_while_the_key_is_up_change_nothing() {
    let mut state = KeyGestureState::new();
    let events = [KeyEvent::KeyDown, KeyEvent::KeyUp, flags(FUNCTION), flags(0)];
    assert_eq!(run(&mut state, &events), 1);
}

#[test]
fn two_taps_toggle_twice() {
    let mut state = KeyGestureState::new();
    let events = [flags(FUNCTION), flags(0), flags(FUNCTION), flags(0)];
    assert_eq!(run(&mut state, &events), 2);
}

#[test]
fn a_chord_does_not_spoil_the_next_tap() {
    let mut state = KeyGestureState::new();
    let events = [
        flags(FUNCTION),
        KeyEvent::KeyDown,
        KeyEvent::KeyUp,
        flags(0),
        flags(FUNCTION),
        flags(0),
    ];
    assert_eq!(run(&mut state, &events), 1);
}

#[test]
fn interceptor_swallows_the_release_of_an_isolated_tap() {
    let mut state = KeyGestureState::new();
    assert_eq!(
        state.intercept(&flags(FUNCTION)),
        Interception { toggle: false, swallow: false }
    );
    assert_eq!(state.intercept(&flags(0)), Interception { toggle: true, swallow: true });
}

#[test]
fn interceptor_passes_a_chord_through() {
    let mut state = KeyGestureState::new();
    let pass = Interception { toggle: false, swallow: false };
    assert_eq!(state.intercept(&flags(FUNCTION)), pass);
    assert_eq!(state.intercept(&KeyEvent::KeyDown), pass);
    assert_eq!(state.intercept(&KeyEvent::KeyUp), pass);
    assert_eq!(state.intercept(&flags(0)), pass);
}

#[test]
fn both_monitors_share_one_state() {
    let mut state = KeyGestureState::new();
    assert!(!state.handle_fn_key_event(&flags(FUNCTION)));
    assert_eq!(state.intercept(&flags(0)), Interception { toggle: true, swallow: true });
    assert!(!state.handle_fn_key_event(&flags(0)));
}

#[test]
fn toggles_never_outnumber_isolated_presses() {
    let alphabet = [
        flags(FUNCTION),
        flags(0),
        flags(FUNCTION | SHIFT),
        flags(SHIFT),
        KeyEvent::KeyDown,
        KeyEvent::Other,
    ];
    let mut seed: u32 = 12345;
    for _ in 0..200 {
        let mut state = KeyGestureState::new();
        let mut toggles: usize = 0;
        let mut taps: usize = 0;
        for _ in 0..40 {
            seed = seed.wrapping_mul(1664525).wrapping_add(1013904223);
            let event = alphabet[(seed >> 16) as usize % alphabet.len()];
            let was_up = !state.fn_active();
            if state.handle_fn_key_event(&event) {
                toggles += 1;
            }
            if was_up && event == flags(FUNCTION) {
                taps += 1;
            }
            assert!(!state.pending_toggle() || state.fn_active());
            assert!(toggles + usize::from(state.pending_toggle()) <= taps);
        }
    }
}

#[test]
fn swallow_verdict_from_separate_reads() {
    assert!(swallows(true, true, &flags(0), false));
    assert!(!swallows(true, true, &flags(0), true));
    assert!(!swallows(true, false, &flags(0), false));
    assert!(!swallows(false, true, &flags(0), false));
    assert!(!swallows(true, true, &flags(FUNCTION), false));
    assert!(!swallows(true, true, &flags(SHIFT | FUNCTION), false));
    assert!(swallows(true, true, &flags(SHIFT), false));
    assert!(!swallows(true, true, &KeyEvent::KeyUp, false));
    assert!(!swallows(true, true, &KeyEvent::Other, false));
}
