//! Prompt construction: the exact texts handed to the text-generation
//! backend for the debounced completion cycle, the inline-command job, the
//! summarize hotkey and the side panel.

use vstd::prelude::*;
use vstd::string::StringExecFns;

use crate::text::{spec_tail, spec_trimmed, tail_chars, trimmed};

verus! {

/// How many trailing characters of the captured context the completion
/// prompt carries.
pub const PROMPT_TAIL_CHARS: usize = 200;

/// One completion request: built once per debounce cycle, immutable
/// thereafter.
pub struct CompletionRequest {
    pub prompt: String,
    pub context_before: String,
}

/// Build the completion request for a debounce cycle from the captured
/// context (empty when capture failed).  A context that is blank after
/// trimming yields no request: the backend is not called for it.
pub fn build_suggestion_request(context: &str) -> (r: Option<CompletionRequest>)
    ensures
        r is Some <==> spec_trimmed(context@).len() > 0,
        r is Some ==> r->0.prompt@
            == "Continue the user's writing with 2\u{2013}3 complete sentences.\nCorrect minor grammar/spelling mistakes if present, but preserve tone and meaning.\nOnly output the continuation (no prefaces).\nText tail to continue:\n"@
            + spec_tail(spec_trimmed(context@), PROMPT_TAIL_CHARS as int),
        r is Some ==> r->0.context_before@ == context@,
{
    let t = trimmed(context);
    if t.as_str().is_empty() {
        None
    } else {
        let tail = tail_chars(t.as_str(), PROMPT_TAIL_CHARS);
        let mut prompt: String =
            "Continue the user's writing with 2\u{2013}3 complete sentences.\nCorrect minor grammar/spelling mistakes if present, but preserve tone and meaning.\nOnly output the continuation (no prefaces).\nText tail to continue:\n".to_owned();
        prompt.append(tail.as_str());
        Some(CompletionRequest { prompt, context_before: context.to_owned() })
    }
}

/// Build the inline-command prompt from the command text the trigger
/// detector extracted (possibly empty) and the captured context.
pub fn build_command_prompt(command_text: &str, context: &str) -> (p: String)
    ensures
        p@ == "User request: "@ + command_text@ + "\n\nContext:\n"@ + context@
            + "\n\nProvide exactly 2 sentences to continue this text."@,
{
    let mut p: String = "User request: ".to_owned();
    p.append(command_text);
    p.append("\n\nContext:\n");
    p.append(context);
    p.append("\n\nProvide exactly 2 sentences to continue this text.");
    p
}

/// Build the summarize-hotkey prompt from the window description and the
/// captured text context.
pub fn build_summarize_prompt(screen: &str, context: &str) -> (p: String)
    ensures
        p@ == "Summarize the following content concisely (3 bullets max or 1 short paragraph).\n\n[Window]\n"@
            + screen@ + "\n\n[Text]\n"@ + context@,
{
    let mut p: String =
        "Summarize the following content concisely (3 bullets max or 1 short paragraph).\n\n[Window]\n".to_owned();
    p.append(screen);
    p.append("\n\n[Text]\n");
    p.append(context);
    p
}

/// Build the side panel's prompt from the cached screen description, the
/// text near the caret and the user's message.
pub fn build_chat_prompt(screen: &str, near_caret: &str, user_message: &str) -> (p: String)
    ensures
        p@ == "[System Context]\n"@ + screen@ + "\n\n[User Text Near Caret]\n"@ + near_caret@
            + "\n\n[User Message]\n"@ + user_message@,
{
    let mut p: String = "[System Context]\n".to_owned();
    p.append(screen);
    p.append("\n\n[User Text Near Caret]\n");
    p.append(near_caret);
    p.append("\n\n[User Message]\n");
    p.append(user_message);
    p
}

} // verus!
