use suggestion_engine::context::split_at_char_index;
use suggestion_engine::debounce::{DebounceConfig, DebounceScheduler};
use suggestion_engine::engine::EngineState;
use suggestion_engine::hook::{is_consumed, on_key_event, HookAction, KeyEvent};
use suggestion_engine::pattern::TriggerDetector;
use suggestion_engine::prompt::build_command_prompt;
use suggestion_engine::slot::Stage;

fn down(key_id: u32) -> KeyEvent {
    KeyEvent { key_id, ctrl: false, shift: false, down: true }
}

fn chord(key_id: u32) -> KeyEvent {
    KeyEvent { key_id, ctrl: true, shift: true, down: true }
}

#[test]
fn typing_the_marker_mid_burst_triggers_the_command_not_a_completion() {
    // Scenario: typing "He" then "llo ##" within the quiet window.
    let mut eng = EngineState::new();
    let mut det = TriggerDetector::new(vec!['#', '#']);
    let mut sched = DebounceScheduler::new(DebounceConfig { quiet_ms: 400, periodic_ms: 1200 }, 0);

    let keys = ['H', 'e', 'l', 'l', 'o', ' ', '#', '#'];
    let mut completions = 0;
    let mut trigger: Option<(usize, String)> = None;
    // what the focused control receives: passed-through keystrokes, minus
    // the erase events the trigger emits
    let mut control = String::new();
    let mut time: u64 = 100;
    for (k, &c) in keys.iter().enumerate() {
        let act = on_key_event(&mut eng, &mut det, &down(c as u32), Some(c));
        assert!(!is_consumed(&act), "typed characters pass through");
        match act {
            HookAction::Activity => {
                control.push(c);
                sched.note_activity(time);
            }
            HookAction::TriggerCommand { erase_count, command_text } => {
                assert_eq!(k, keys.len() - 1, "only the second '#' may fire");
                // the completing keystroke is not withheld, so the whole
                // marker stands in the control before the erases remove it
                control.push(c);
                for _ in 0..erase_count {
                    control.pop();
                }
                trigger = Some((erase_count, command_text));
            }
            _ => panic!("unexpected action for ordinary typing"),
        }
        // keystrokes 150 ms apart: inside the quiet window, no completion
        if sched.poll(time + 75) {
            completions += 1;
        }
        time += 150;
    }
    assert_eq!(completions, 0, "no completion may fire mid-burst");

    // on the second '#': two erase events fire and the inline-command job
    // starts with empty command text
    let (erase_count, command_text) = trigger.expect("the marker must fire");
    assert_eq!(erase_count, 2);
    assert_eq!(command_text, "");
    assert_eq!(control, "Hello ", "the erases remove exactly the marker");

    // the job captures context "Hello " (the text before the caret)
    let captured = split_at_char_index(&control, 6);
    assert_eq!(captured.before, "Hello ");
    assert_eq!(captured.after, "");
    let prompt = build_command_prompt(&command_text, &captured.before);
    assert_eq!(
        prompt,
        "User request: \n\nContext:\nHello \n\nProvide exactly 2 sentences to continue this text."
    );
}

#[test]
fn accept_key_injects_showing_text_and_is_consumed() {
    let mut eng = EngineState::new();
    let mut det = TriggerDetector::new(vec!['#', '#']);
    eng.install_suggestion(&"finish this".to_string());

    let act = on_key_event(&mut eng, &mut det, &down(0x09), None);
    match &act {
        HookAction::Inject(text) => assert_eq!(text, "finish this"),
        _ => panic!("accept with text showing must inject"),
    }
    assert!(is_consumed(&act));
    assert!(eng.slot.text.is_empty());
    assert!(eng.token.cancelled);
}

#[test]
fn accept_key_passes_through_when_nothing_is_showing() {
    let mut eng = EngineState::new();
    let mut det = TriggerDetector::new(vec!['#', '#']);
    let act = on_key_event(&mut eng, &mut det, &down(0x09), None);
    assert!(matches!(act, HookAction::Forward));
    assert!(!is_consumed(&act));
    assert!(!eng.token.cancelled);
}

#[test]
fn dismiss_key_is_consumed_and_redraws_only_when_text_showed() {
    let mut eng = EngineState::new();
    let mut det = TriggerDetector::new(vec!['#', '#']);

    let act = on_key_event(&mut eng, &mut det, &down(0x1B), None);
    match act {
        HookAction::Dismissed { redraw } => assert!(!redraw),
        _ => panic!("dismiss must report Dismissed"),
    }

    eng.install_suggestion(&"ghost".to_string());
    let act = on_key_event(&mut eng, &mut det, &down(0x1B), None);
    match act {
        HookAction::Dismissed { redraw } => assert!(redraw),
        _ => panic!("dismiss must report Dismissed"),
    }
    assert!(eng.slot.text.is_empty());
    assert!(matches!(eng.slot.stage, Stage::Idle));
}

#[test]
fn hotkey_chords_are_recognised() {
    let mut eng = EngineState::new();
    let mut det = TriggerDetector::new(vec!['#', '#']);

    let act = on_key_event(&mut eng, &mut det, &chord(0x43), Some('c'));
    assert!(matches!(act, HookAction::ToggleChatPanel));

    let act = on_key_event(&mut eng, &mut det, &chord(0x53), Some('s'));
    assert!(matches!(act, HookAction::SummarizeRequest));
    assert!(eng.token.cancelled, "summarize cancels the running cycle");

    // a bare 'c' without the chord is ordinary typing
    let act = on_key_event(&mut eng, &mut det, &down(0x43), Some('c'));
    assert!(matches!(act, HookAction::Activity));
}

#[test]
fn key_up_events_are_forwarded_untouched() {
    let mut eng = EngineState::new();
    let mut det = TriggerDetector::new(vec!['#', '#']);
    eng.install_suggestion(&"keep".to_string());
    let ev = KeyEvent { key_id: 0x1B, ctrl: false, shift: false, down: false };
    let act = on_key_event(&mut eng, &mut det, &ev, None);
    assert!(matches!(act, HookAction::Forward));
    assert_eq!(eng.slot.text, "keep");
}
