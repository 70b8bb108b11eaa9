use suggestion_engine::prompt::{
    build_chat_prompt, build_command_prompt, build_suggestion_request, build_summarize_prompt,
};

#[test]
fn the_completion_prompt_carries_the_trimmed_context_tail() {
    let req = build_suggestion_request("  Dear committee,  ").expect("non-blank context");
    assert_eq!(
        req.prompt,
        "Continue the user's writing with 2\u{2013}3 complete sentences.\n\
         Correct minor grammar/spelling mistakes if present, but preserve tone and meaning.\n\
         Only output the continuation (no prefaces).\n\
         Text tail to continue:\nDear committee,"
    );
    assert_eq!(req.context_before, "  Dear committee,  ");
}

#[test]
fn only_the_last_two_hundred_characters_are_sent() {
    let long: String = std::iter::repeat('x').take(300).collect();
    let req = build_suggestion_request(&long).expect("non-blank context");
    let tail: String = std::iter::repeat('x').take(200).collect();
    assert!(req.prompt.ends_with(&format!("Text tail to continue:\n{}", tail)));
    assert!(!req.prompt.ends_with(&format!("x{}", tail)));
}

#[test]
fn blank_context_yields_no_request() {
    assert!(build_suggestion_request("").is_none());
    assert!(build_suggestion_request(" \t \n ").is_none());
}

#[test]
fn the_command_prompt_is_exact() {
    let p = build_command_prompt("rewrite formally", "Dear Sir");
    assert_eq!(
        p,
        "User request: rewrite formally\n\nContext:\nDear Sir\n\n\
         Provide exactly 2 sentences to continue this text."
    );
}

#[test]
fn the_summarize_prompt_is_exact() {
    let p = build_summarize_prompt("Editor - notes.txt", "body text");
    assert_eq!(
        p,
        "Summarize the following content concisely (3 bullets max or 1 short paragraph).\n\n\
         [Window]\nEditor - notes.txt\n\n[Text]\nbody text"
    );
}

#[test]
fn the_chat_prompt_is_exact() {
    let p = build_chat_prompt("window", "near caret", "help me");
    assert_eq!(
        p,
        "[System Context]\nwindow\n\n[User Text Near Caret]\nnear caret\n\n[User Message]\nhelp me"
    );
}
