//! The conversational side panel's message history.  The panel's window is
//! an external collaborator; what the engine owns is the message list, the
//! placeholder that stands in for a pending reply, and the rule for picking
//! the latest usable reply out of it.

use vstd::prelude::*;

use crate::text::{spec_trimmed, trimmed};

verus! {

/// One chat message, from the user or from the assistant.
#[derive(Clone)]
pub struct ChatMessage {
    pub is_user: bool,
    pub text: String,
}

/// The ordered message history of the side panel.
pub struct ChatHistory {
    pub messages: Vec<ChatMessage>,
}

/// An assistant message worth handing out: non-blank after trimming and not
/// the pending-reply placeholder.
pub open spec fn usable_reply(t: Seq<char>) -> bool {
    &&& spec_trimmed(t).len() > 0
    &&& spec_trimmed(t) != "Thinking..."@
}

/// The trimmed text of the latest usable assistant message, if any.
pub open spec fn spec_last_ai_text(ms: Seq<ChatMessage>) -> Option<Seq<char>>
    decreases ms.len(),
{
    if ms.len() == 0 {
        None
    } else if !ms.last().is_user && usable_reply(ms.last().text@) {
        Some(spec_trimmed(ms.last().text@))
    } else {
        spec_last_ai_text(ms.drop_last())
    }
}

impl ChatHistory {
    pub fn new() -> (h: Self)
        ensures
            h.messages@.len() == 0,
    {
        ChatHistory { messages: Vec::new() }
    }

    /// Record a user message and the placeholder the streaming reply will
    /// overwrite.  A message that is blank after trimming is not posted at
    /// all — the history stays as it was, and the returned flag tells the
    /// caller that no backend query is owed.
    pub fn post_user_message(&mut self, text: String) -> (posted: bool)
        ensures
            posted <==> spec_trimmed(text@).len() > 0,
            !posted ==> *final(self) == *old(self),
            posted ==> {
                &&& final(self).messages@.len() == old(self).messages@.len() + 2
                &&& forall|i: int|
                    0 <= i < old(self).messages@.len()
                        ==> final(self).messages@[i] == old(self).messages@[i]
                &&& final(self).messages@[old(self).messages@.len() as int].is_user
                &&& final(self).messages@[old(self).messages@.len() as int].text@ == text@
                &&& !final(self).messages@.last().is_user
                &&& final(self).messages@.last().text@ == "Thinking..."@
            },
    {
        let t = trimmed(text.as_str());
        if t.as_str().is_empty() {
            return false;
        }
        self.messages.push(ChatMessage { is_user: true, text });
        self.messages.push(ChatMessage { is_user: false, text: "Thinking...".to_owned() });
        true
    }

    /// Replace the text of the trailing assistant message (the accumulating
    /// streamed reply, or the failure notice).  With no trailing assistant
    /// message, nothing changes.
    pub fn update_last_ai(&mut self, text: &str)
        ensures
            final(self).messages@.len() == old(self).messages@.len(),
            forall|i: int|
                0 <= i < old(self).messages@.len() - 1
                    ==> final(self).messages@[i] == old(self).messages@[i],
            old(self).messages@.len() > 0 && !old(self).messages@.last().is_user ==> {
                &&& !final(self).messages@.last().is_user
                &&& final(self).messages@.last().text@ == text@
            },
            old(self).messages@.len() > 0 && old(self).messages@.last().is_user
                ==> final(self).messages@ == old(self).messages@,
    {
        let n = self.messages.len();
        if n > 0 {
            if !self.messages[n - 1].is_user {
                self.messages.pop();
                self.messages.push(ChatMessage { is_user: false, text: text.to_owned() });
            }
        }
    }
}

/// The latest assistant reply that is neither blank nor the placeholder,
/// trimmed, scanning from the newest message backwards.
pub fn get_last_ai_text(history: &ChatHistory) -> (r: Option<String>)
    ensures
        r is Some <==> spec_last_ai_text(history.messages@) is Some,
        r is Some ==> r->0@ == spec_last_ai_text(history.messages@)->0,
{
    let placeholder: String = "Thinking...".to_owned();
    let mut i: usize = history.messages.len();
    proof {
        assert(history.messages@.take(i as int) =~= history.messages@);
    }
    while i > 0
        invariant
            i <= history.messages@.len(),
            placeholder@ == "Thinking..."@,
            spec_last_ai_text(history.messages@) == spec_last_ai_text(
                history.messages@.take(i as int),
            ),
        decreases i,
    {
        let m = &history.messages[i - 1];
        proof {
            assert(history.messages@.take(i as int).last() == history.messages@[i - 1]);
            assert(history.messages@.take(i as int).drop_last() =~= history.messages@.take(
                i as int - 1,
            ));
        }
        if !m.is_user {
            let t = trimmed(m.text.as_str());
            if !t.as_str().is_empty() && !(t == placeholder) {
                return Some(t);
            }
        }
        i = i - 1;
    }
    proof {
        assert(history.messages@.take(0).len() == 0);
    }
    None
}

} // verus!
