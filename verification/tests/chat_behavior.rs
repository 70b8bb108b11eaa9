use suggestion_engine::chat::{get_last_ai_text, ChatHistory, ChatMessage};

#[test]
fn empty_history_has_no_reply() {
    let h = ChatHistory::new();
    assert_eq!(get_last_ai_text(&h), None);
}

#[test]
fn the_latest_usable_assistant_reply_is_returned_trimmed() {
    let h = ChatHistory {
        messages: vec![
            ChatMessage { is_user: false, text: "older reply".to_string() },
            ChatMessage { is_user: true, text: "a question".to_string() },
            ChatMessage { is_user: false, text: "  newest reply  ".to_string() },
        ],
    };
    assert_eq!(get_last_ai_text(&h), Some("newest reply".to_string()));
}

#[test]
fn placeholders_blanks_and_user_messages_are_passed_over() {
    let h = ChatHistory {
        messages: vec![
            ChatMessage { is_user: false, text: "the real reply".to_string() },
            ChatMessage { is_user: true, text: "next question".to_string() },
            ChatMessage { is_user: false, text: "   ".to_string() },
            ChatMessage { is_user: false, text: "Thinking...".to_string() },
        ],
    };
    assert_eq!(get_last_ai_text(&h), Some("the real reply".to_string()));
}

#[test]
fn only_placeholders_means_no_reply() {
    let h = ChatHistory {
        messages: vec![
            ChatMessage { is_user: true, text: "hello?".to_string() },
            ChatMessage { is_user: false, text: "Thinking...".to_string() },
        ],
    };
    assert_eq!(get_last_ai_text(&h), None);
}

#[test]
fn posting_adds_the_message_and_the_placeholder() {
    let mut h = ChatHistory::new();
    assert!(h.post_user_message("what now?".to_string()));
    assert_eq!(h.messages.len(), 2);
    assert!(h.messages[0].is_user);
    assert_eq!(h.messages[0].text, "what now?");
    assert!(!h.messages[1].is_user);
    assert_eq!(h.messages[1].text, "Thinking...");
}

#[test]
fn blank_messages_are_not_posted() {
    let mut h = ChatHistory::new();
    assert!(!h.post_user_message("   \t ".to_string()));
    assert!(h.messages.is_empty());
    assert!(!h.post_user_message(String::new()));
    assert!(h.messages.is_empty());
}

#[test]
fn streaming_updates_overwrite_the_trailing_reply() {
    let mut h = ChatHistory::new();
    assert!(h.post_user_message("go on".to_string()));
    h.update_last_ai("par");
    h.update_last_ai("partial then full");
    assert_eq!(h.messages.len(), 2);
    assert_eq!(h.messages[1].text, "partial then full");
    assert_eq!(get_last_ai_text(&h), Some("partial then full".to_string()));
}

#[test]
fn an_update_without_a_trailing_reply_changes_nothing() {
    let mut h = ChatHistory {
        messages: vec![ChatMessage { is_user: true, text: "only user".to_string() }],
    };
    h.update_last_ai("stray");
    assert_eq!(h.messages.len(), 1);
    assert_eq!(h.messages[0].text, "only user");
}
