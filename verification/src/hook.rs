//! The privileged input path: the synchronous, non-blocking decision taken
//! for every key-down the system delivers.  The function below only moves
//! values and flips the shared state under the caller's short-held lock;
//! everything slow that a decision demands — injection, capture, a backend
//! call, a redraw — is handed back as an action for the application to
//! perform off the privileged path.  Unhandled events are forwarded so the
//! rest of the system's input chain keeps working.

use vstd::prelude::*;

use crate::engine::{accept_rel, dismiss_rel, EngineState};
use crate::pattern::{ends_with, pushed_contents, TriggerDetector};

verus! {

/// Key id of the accept key (Tab).
pub const KEY_ACCEPT: u32 = 0x09;

/// Key id of the dismiss key (Escape).
pub const KEY_DISMISS: u32 = 0x1B;

/// Key id of the chat-panel hotkey letter (C).
pub const KEY_CHAT: u32 = 0x43;

/// Key id of the summarize hotkey letter (S).
pub const KEY_SUMMARIZE: u32 = 0x53;

/// One key event as the event source delivers it: key id, the modifier
/// snapshot, and whether the key went down.
#[derive(Clone, Copy, Debug, PartialEq, Eq, Structural)]
pub struct KeyEvent {
    pub key_id: u32,
    pub ctrl: bool,
    pub shift: bool,
    pub down: bool,
}

/// What the application must do after the decision.  Consumed events are
/// withheld from the focused application; forwarded ones pass through.
pub enum HookAction {
    /// Not handled: pass the event on down the input chain.
    Forward,
    /// Consumed: toggle the conversational side panel.
    ToggleChatPanel,
    /// Consumed: capture context off the privileged path, query the backend
    /// for a summary, and install the outcome.
    SummarizeRequest,
    /// Consumed: synchronously inject this accepted text.
    Inject(String),
    /// Consumed: the suggestion was dismissed; redraw only if text was
    /// showing.
    Dismissed { redraw: bool },
    /// Not consumed: the inline-command marker completed.  The completing
    /// keystroke passes through, so the whole marker stands in the focused
    /// control; emit this many erase events synchronously to remove it,
    /// then run the command job asynchronously.
    TriggerCommand { erase_count: usize, command_text: String },
    /// Not handled: pass the event on, and signal typing activity to the
    /// debounce scheduler.
    Activity,
}

/// Whether an action withholds the event from the focused application.
/// The marker's completing keystroke is let through: the erase events that
/// follow are sized to remove the whole marker from the control.
pub open spec fn spec_consumed(act: HookAction) -> bool {
    !(act is Forward || act is Activity || act is TriggerCommand)
}

pub fn is_consumed(act: &HookAction) -> (r: bool)
    ensures
        r == spec_consumed(*act),
{
    match act {
        HookAction::Forward => false,
        HookAction::Activity => false,
        HookAction::TriggerCommand { .. } => false,
        _ => true,
    }
}

/// The chat-panel hotkey chord.
pub open spec fn is_toggle_chord(ev: KeyEvent) -> bool {
    ev.key_id == KEY_CHAT && ev.ctrl && ev.shift
}

/// The summarize hotkey chord.
pub open spec fn is_summarize_chord(ev: KeyEvent) -> bool {
    ev.key_id == KEY_SUMMARIZE && ev.ctrl && ev.shift
}

/// A key-down that none of the special keys claim: it only feeds the
/// character tracker and the debounce scheduler.
pub open spec fn is_plain_key(ev: KeyEvent) -> bool {
    &&& !is_toggle_chord(ev)
    &&& !is_summarize_chord(ev)
    &&& ev.key_id != KEY_ACCEPT
    &&& ev.key_id != KEY_DISMISS
}

/// Decide one delivered key event.  `translated` is the character the
/// layout-aware translation produced for this key, if any; translation is
/// the event source's work and happens before this call.
///
/// The decision table, in order:
/// - key-up events are forwarded untouched;
/// - the chat and summarize chords are consumed (the summarize chord also
///   cancels the running cycle, since its result will claim the slot);
/// - the accept key takes the showing suggestion for injection, clearing
///   the slot and cancelling the running cycle first; with nothing showing
///   it is forwarded so the key keeps its ordinary meaning;
/// - the dismiss key is always consumed, clears the slot and cancels;
/// - any other key feeds the tracked character (when one was translated) to
///   the trigger detector, firing the inline command when the marker
///   completes, and otherwise counts as typing activity.  The completing
///   keystroke is not withheld: it reaches the control like its
///   predecessors, and the marker-length erase events then remove the
///   marker whole.
pub fn on_key_event(
    eng: &mut EngineState,
    detector: &mut TriggerDetector,
    ev: &KeyEvent,
    translated: Option<char>,
) -> (act: HookAction)
    requires
        old(eng).wf(),
        old(detector).wf(),
    ensures
        final(eng).wf(),
        final(detector).wf(),
        final(detector).marker_view() == old(detector).marker_view(),
        !ev.down ==> {
            &&& act is Forward
            &&& *final(eng) == *old(eng)
            &&& *final(detector) == *old(detector)
        },
        ev.down && is_toggle_chord(*ev) ==> {
            &&& act is ToggleChatPanel
            &&& *final(eng) == *old(eng)
            &&& *final(detector) == *old(detector)
        },
        ev.down && !is_toggle_chord(*ev) && is_summarize_chord(*ev) ==> {
            &&& act is SummarizeRequest
            &&& final(eng).slot == old(eng).slot
            &&& final(eng).token.generation == old(eng).token.generation
            &&& final(eng).token.cancelled
            &&& *final(detector) == *old(detector)
        },
        ev.down && !is_toggle_chord(*ev) && !is_summarize_chord(*ev) && ev.key_id == KEY_ACCEPT
            ==> {
            &&& *final(detector) == *old(detector)
            &&& old(eng).slot.has_text() ==> (act matches HookAction::Inject(text)
                && text@ == old(eng).slot.text@ && accept_rel(
                *old(eng),
                *final(eng),
                Some(text),
            ))
            &&& !old(eng).slot.has_text() ==> act is Forward && *final(eng) == *old(eng)
        },
        ev.down && !is_toggle_chord(*ev) && !is_summarize_chord(*ev) && ev.key_id == KEY_DISMISS
            ==> {
            &&& *final(detector) == *old(detector)
            &&& (act matches HookAction::Dismissed { redraw } && dismiss_rel(
                *old(eng),
                *final(eng),
                redraw,
            ))
        },
        ev.down && is_plain_key(*ev) ==> {
            &&& *final(eng) == *old(eng)
            &&& translated is None ==> act is Activity && *final(detector) == *old(detector)
            &&& translated matches Some(c) ==> {
                let pushed = pushed_contents(old(detector).buffered(), c);
                if ends_with(pushed, old(detector).marker_view()) {
                    &&& (act matches HookAction::TriggerCommand { erase_count, command_text }
                        && erase_count == old(detector).marker_view().len()
                        && command_text@.len() == 0)
                    &&& final(detector).buffered().len() == 0
                } else {
                    &&& act is Activity
                    &&& final(detector).buffered() == pushed
                }
            }
        },
{
    if !ev.down {
        return HookAction::Forward;
    }
    if ev.key_id == KEY_CHAT && ev.ctrl && ev.shift {
        return HookAction::ToggleChatPanel;
    }
    if ev.key_id == KEY_SUMMARIZE && ev.ctrl && ev.shift {
        eng.retire();
        return HookAction::SummarizeRequest;
    }
    if ev.key_id == KEY_ACCEPT {
        match eng.accept() {
            Some(text) => {
                return HookAction::Inject(text);
            },
            None => {
                return HookAction::Forward;
            },
        }
    }
    if ev.key_id == KEY_DISMISS {
        let redraw = eng.dismiss();
        return HookAction::Dismissed { redraw };
    }
    match translated {
        Some(c) => {
            match detector.on_char(c) {
                Some(trigger) => HookAction::TriggerCommand {
                    erase_count: trigger.erase_count,
                    command_text: trigger.command_text,
                },
                None => HookAction::Activity,
            }
        },
        None => HookAction::Activity,
    }
}

} // verus!
