use alfred::models::{copy_messages, Message, Role};

#[test]
fn test_role_serialization() {
    assert_eq!(format!("\"{}\"", Role::User.label()), "\"user\"");
    assert_eq!(format!("\"{}\"", Role::Assistant.label()), "\"assistant\"");
    assert_eq!(format!("\"{}\"", Role::System.label()), "\"system\"");
    assert_eq!(format!("\"{}\"", Role::Tool.label()), "\"tool\"");
}

#[test]
fn test_message_serialization() {
    let msg = Message::new(Role::User, "hello".to_string());
    assert_eq!(msg.role.label(), "user");
    assert_eq!(msg.content, "hello");
    assert_eq!(msg.role, Role::User);
}

#[test]
fn message_ids_are_fresh() {
    let a = Message::new(Role::User, "x".to_string());
    let b = Message::new(Role::User, "x".to_string());
    assert_ne!(a.id, b.id);
    let c = a.duplicate();
    assert_eq!(c.id, a.id);
    assert_eq!(c.content, "x");
}

#[test]
fn copy_messages_keeps_order() {
    let ms = vec![
        Message::new(Role::User, "q".to_string()),
        Message::new(Role::Assistant, "a".to_string()),
    ];
    let cs = copy_messages(&ms);
    assert_eq!(cs.len(), 2);
    assert_eq!(cs[0].role, Role::User);
    assert_eq!(cs[0].content, "q");
    assert_eq!(cs[1].role, Role::Assistant);
    assert_eq!(cs[1].content, "a");
    assert_eq!(cs[1].id, ms[1].id);
}
