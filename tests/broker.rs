use image_classifier::broker::SessionBroker;
use image_classifier::chat::{begin_chat_message, ChatMessage, ChatStep};

#[test]
fn new_broker_is_empty() {
    let b: SessionBroker<char> = SessionBroker::new();
    assert_eq!(b.session_count(), 0);
    assert!(!b.is_active(1));
}

#[test]
fn register_then_disconnect() {
    let mut b = SessionBroker::new();
    assert!(b.register(7, 'a'));
    assert!(b.is_active(7));
    assert_eq!(b.session_count(), 1);
    assert!(b.disconnect(7));
    assert!(!b.is_active(7));
    assert!(!b.disconnect(7));
    assert!(!b.disconnect(7));
    assert_eq!(b.session_count(), 0);
}

#[test]
fn live_id_is_not_reused() {
    let mut b = SessionBroker::new();
    assert!(b.register(5, 'a'));
    assert!(!b.register(5, 'b'));
    assert_eq!(b.reply_handle(5), Some(&'a'));
    assert_eq!(b.session_count(), 1);
}

#[test]
fn connect_draws_distinct_ids() {
    let mut b = SessionBroker::new();
    let x = b.connect('x').unwrap();
    let y = b.connect('y').unwrap();
    assert_ne!(x, y);
    assert_eq!(b.reply_handle(x), Some(&'x'));
    assert_eq!(b.reply_handle(y), Some(&'y'));
    assert_eq!(b.session_count(), 2);
}

#[test]
fn replies_go_to_the_sender_only() {
    let mut b = SessionBroker::new();
    b.register(1, "A");
    b.register(2, "B");
    assert_eq!(b.reply_handle(1), Some(&"A"));
    assert_eq!(b.reply_handle(2), Some(&"B"));
    b.disconnect(2);
    assert_eq!(b.reply_handle(1), Some(&"A"));
    assert_eq!(b.reply_handle(2), None);
}

#[test]
fn failed_analysis_keeps_session_active() {
    let mut b = SessionBroker::new();
    let id = b.connect(0u8).unwrap();
    let msg = ChatMessage { message: String::new(), image_data: Some("@@not an image@@".to_string()) };
    assert!(matches!(begin_chat_message(&msg), ChatStep::Reply(_)));
    assert!(b.is_active(id));
    assert_eq!(b.reply_handle(id), Some(&0u8));
}

#[test]
fn disconnected_id_is_not_issued_again() {
    let mut b = SessionBroker::new();
    assert!(b.register(9, 'a'));
    assert!(b.disconnect(9));
    assert!(!b.register(9, 'b'));
    assert!(!b.is_active(9));
    assert_eq!(b.reply_handle(9), None);
    assert_eq!(b.session_count(), 0);
}
