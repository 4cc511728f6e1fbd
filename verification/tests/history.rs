use doubao_tts::history::ConversationHistory;

#[test]
fn history_records_roles_in_order() {
    let mut history = ConversationHistory::new(10);
    history.add_user_message("hi");
    history.add_assistant_message("hello there");
    let messages = history.get_messages();
    assert_eq!(messages.len(), 2);
    assert_eq!(messages[0].role, "user");
    assert_eq!(messages[0].content, "hi");
    assert_eq!(messages[1].role, "assistant");
    assert_eq!(messages[1].content, "hello there");
}

#[test]
fn history_is_empty_at_start() {
    let history = ConversationHistory::new(4);
    assert!(history.get_messages().is_empty());
}

#[test]
fn history_keeps_at_most_twice_the_bound() {
    let mut history = ConversationHistory::new(1);
    history.add_user_message("one");
    history.add_assistant_message("two");
    history.add_user_message("three");
    let messages = history.get_messages();
    assert_eq!(messages.len(), 2);
    assert_eq!(messages[0].content, "two");
    assert_eq!(messages[1].content, "three");
}

#[test]
fn trim_history_alone_is_idempotent() {
    let mut history = ConversationHistory::new(2);
    for text in ["a", "b", "c", "d", "e"] {
        history.add_user_message(text);
    }
    history.trim_history();
    history.trim_history();
    let messages = history.get_messages();
    assert_eq!(messages.len(), 4);
    assert_eq!(messages[0].content, "b");
    assert_eq!(messages[3].content, "e");
}

#[test]
fn zero_bound_drops_everything() {
    let mut history = ConversationHistory::new(0);
    history.add_user_message("gone");
    assert!(history.get_messages().is_empty());
}
