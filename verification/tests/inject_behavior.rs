use suggestion_engine::inject::{
    keystroke_plan, paste_chord, plan_injection, BatchInjector, InjectionPlan, SendStep,
    PASTE_KEY_UNIT, PASTE_MODIFIER_UNIT,
};

#[test]
fn short_text_becomes_one_pulse_pair_per_unit_in_order() {
    let text = "Hi!".to_string();
    match plan_injection(&text, 1500) {
        InjectionPlan::Keystrokes(events) => {
            let units: Vec<u16> = text.encode_utf16().collect();
            assert_eq!(events.len(), 2 * units.len());
            for (i, &u) in units.iter().enumerate() {
                assert_eq!(events[2 * i].unit, u);
                assert!(events[2 * i].down);
                assert_eq!(events[2 * i + 1].unit, u);
                assert!(!events[2 * i + 1].down);
            }
        }
        InjectionPlan::ClipboardPaste(_) => panic!("short text must be typed, not pasted"),
    }
}

#[test]
fn astral_characters_encode_as_surrogate_pairs() {
    let text = "a\u{1D11E}b".to_string();  // 3 chars, 4 UTF-16 units
    match plan_injection(&text, 1500) {
        InjectionPlan::Keystrokes(events) => {
            let units: Vec<u16> = text.encode_utf16().collect();
            assert_eq!(units.len(), 4);
            assert_eq!(events.len(), 8);
            for (i, &u) in units.iter().enumerate() {
                assert_eq!(events[2 * i].unit, u);
                assert_eq!(events[2 * i + 1].unit, u);
            }
        }
        InjectionPlan::ClipboardPaste(_) => panic!("short text must be typed, not pasted"),
    }
}

#[test]
fn long_text_goes_verbatim_to_the_clipboard() {
    let text: String = std::iter::repeat('x').take(1500).collect();
    match plan_injection(&text, 1500) {
        InjectionPlan::ClipboardPaste(payload) => assert_eq!(payload, text),
        InjectionPlan::Keystrokes(_) => panic!("text at the threshold must be pasted"),
    }
    // one character below the threshold still types
    let shorter: String = std::iter::repeat('x').take(1499).collect();
    assert!(matches!(plan_injection(&shorter, 1500), InjectionPlan::Keystrokes(_)));
}

#[test]
fn the_threshold_counts_encoded_units_not_characters() {
    // 750 astral characters are 1500 UTF-16 units: bulk enough to paste
    let text: String = std::iter::repeat('\u{1D11E}').take(750).collect();
    assert_eq!(text.encode_utf16().count(), 1500);
    assert!(matches!(plan_injection(&text, 1500), InjectionPlan::ClipboardPaste(_)));
    let text: String = std::iter::repeat('\u{1D11E}').take(749).collect();
    assert!(matches!(plan_injection(&text, 1500), InjectionPlan::Keystrokes(_)));
}

#[test]
fn a_failed_paste_falls_back_to_per_unit_synthesis() {
    let text: String = std::iter::repeat('y').take(1500).collect();
    assert!(matches!(plan_injection(&text, 1500), InjectionPlan::ClipboardPaste(_)));
    // when the clipboard cannot be taken, the same text is typed instead
    let events = keystroke_plan(&text);
    assert_eq!(events.len(), 2 * 1500);
    assert_eq!(events[0].unit, 'y' as u16);
}

#[test]
fn the_paste_chord_is_modifier_key_key_modifier() {
    let chord = paste_chord();
    assert_eq!(chord.len(), 4);
    assert_eq!((chord[0].unit, chord[0].down), (PASTE_MODIFIER_UNIT, true));
    assert_eq!((chord[1].unit, chord[1].down), (PASTE_KEY_UNIT, true));
    assert_eq!((chord[2].unit, chord[2].down), (PASTE_KEY_UNIT, false));
    assert_eq!((chord[3].unit, chord[3].down), (PASTE_MODIFIER_UNIT, false));
}

#[test]
fn batches_advance_by_accepted_events() {
    let text: String = std::iter::repeat('q').take(65).collect();  // 130 events
    let events = match plan_injection(&text, 1500) {
        InjectionPlan::Keystrokes(events) => events,
        InjectionPlan::ClipboardPaste(_) => panic!("expected keystrokes"),
    };
    let mut b = BatchInjector::new(events);
    assert_eq!(b.current_batch().len(), 64);
    assert!(matches!(b.report(64), SendStep::Proceed));
    assert_eq!(b.offset, 64);
    assert_eq!(b.current_batch().len(), 64);
    assert!(matches!(b.report(64), SendStep::Proceed));
    assert_eq!(b.current_batch().len(), 2);
    assert!(matches!(b.report(2), SendStep::Proceed));
    assert!(b.is_finished());
    assert!(!b.abandoned);
}

#[test]
fn stalled_batch_retries_once_then_abandons() {
    let text = "abc".to_string();
    let events = match plan_injection(&text, 1500) {
        InjectionPlan::Keystrokes(events) => events,
        InjectionPlan::ClipboardPaste(_) => panic!("expected keystrokes"),
    };
    let mut b = BatchInjector::new(events);
    assert!(matches!(b.report(0), SendStep::Retry));
    assert!(!b.is_finished());
    assert!(matches!(b.report(0), SendStep::Abandon));
    assert!(b.is_finished());
    assert!(b.abandoned);
    assert_eq!(b.offset, 0);
}

#[test]
fn partial_acceptance_after_retry_still_proceeds() {
    let text = "abcd".to_string();  // 8 events
    let events = match plan_injection(&text, 1500) {
        InjectionPlan::Keystrokes(events) => events,
        InjectionPlan::ClipboardPaste(_) => panic!("expected keystrokes"),
    };
    let mut b = BatchInjector::new(events);
    assert!(matches!(b.report(0), SendStep::Retry));
    assert!(matches!(b.report(3), SendStep::Proceed));
    assert_eq!(b.offset, 3);
    assert!(matches!(b.report(5), SendStep::Proceed));
    assert!(b.is_finished());
}
