use chat_relay::events::ClientMessage;
use chat_relay::hub::{WebSocketServer, DEFAULT_CAPACITY};

fn said(content: &str) -> ClientMessage {
    ClientMessage::SendMessage { content: content.to_string() }
}

fn texts(items: &[&str]) -> Option<Vec<String>> {
    Some(items.iter().map(|s| s.to_string()).collect())
}

fn word(text: &str) -> serde_json::Value {
    serde_json::Value::from(text)
}

fn event(kind: &str) -> serde_json::Value {
    let mut fields = serde_json::Map::new();
    fields.insert("type".to_string(), serde_json::Value::from(kind));
    serde_json::Value::Object(fields)
}

#[test]
fn new_hub_is_empty() {
    assert_eq!(DEFAULT_CAPACITY, 100);
    let mut hub = WebSocketServer::new(DEFAULT_CAPACITY);
    assert_eq!(hub.viewer_count(), 0);
    assert_eq!(hub.receive_message(), None);
    assert!(!hub.is_connected(0));
    assert_eq!(hub.take_outbound(0), None);
}

#[test]
fn greeting_goes_to_the_new_viewer_only() {
    let mut hub = WebSocketServer::new(100);
    let a = hub.connect(&word("hello a")).unwrap();
    assert_eq!(hub.take_outbound(a), texts(&["\"hello a\""]));
    let b = hub.connect(&word("hello b")).unwrap();
    assert_ne!(a, b);
    assert_eq!(hub.take_outbound(a), texts(&[]));
    assert_eq!(hub.take_outbound(b), texts(&["\"hello b\""]));
    assert_eq!(hub.viewer_count(), 2);
}

#[test]
fn broadcast_reaches_every_viewer_in_order() {
    let mut hub = WebSocketServer::new(100);
    let a = hub.connect(&word("hi")).unwrap();
    let b = hub.connect(&word("hi")).unwrap();
    hub.take_outbound(a);
    hub.take_outbound(b);
    hub.broadcast_json(&event("start"));
    hub.broadcast_json(&serde_json::Value::from(vec![1, 2]));
    assert_eq!(hub.take_outbound(a), texts(&["{\"type\":\"start\"}", "[1,2]"]));
    hub.broadcast_json(&event("end"));
    assert_eq!(hub.take_outbound(a), texts(&["{\"type\":\"end\"}"]));
    assert_eq!(
        hub.take_outbound(b),
        texts(&["{\"type\":\"start\"}", "[1,2]", "{\"type\":\"end\"}"])
    );
}

#[test]
fn late_joiner_gets_no_replay() {
    let mut hub = WebSocketServer::new(100);
    hub.broadcast_json(&word("early"));
    let a = hub.connect(&word("hi")).unwrap();
    hub.broadcast_json(&word("late"));
    assert_eq!(hub.take_outbound(a), texts(&["\"hi\"", "\"late\""]));
}

#[test]
fn viewer_with_a_full_outbox_is_dropped_and_the_others_served() {
    let mut hub = WebSocketServer::new(2);
    let slow = hub.connect(&word("hi")).unwrap();
    let quick = hub.connect(&word("hi")).unwrap();
    hub.take_outbound(quick);
    hub.broadcast_json(&word("one"));
    assert!(hub.is_connected(slow));
    hub.take_outbound(quick);
    hub.broadcast_json(&word("two"));
    assert!(!hub.is_connected(slow));
    assert!(hub.is_connected(quick));
    assert_eq!(hub.take_outbound(slow), None);
    assert_eq!(hub.take_outbound(quick), texts(&["\"two\""]));
    assert_eq!(hub.viewer_count(), 1);
}

#[test]
fn disconnect_drops_one_viewer() {
    let mut hub = WebSocketServer::new(100);
    let a = hub.connect(&word("hi")).unwrap();
    let b = hub.connect(&word("hi")).unwrap();
    hub.disconnect(a);
    hub.disconnect(a);
    hub.disconnect(77);
    assert!(!hub.is_connected(a));
    assert!(hub.is_connected(b));
    hub.broadcast_json(&word("x"));
    assert_eq!(hub.take_outbound(a), None);
    assert_eq!(hub.take_outbound(b), texts(&["\"hi\"", "\"x\""]));
    let c = hub.connect(&word("hi")).unwrap();
    assert_ne!(c, a);
    assert_ne!(c, b);
}

#[test]
fn inbound_messages_leave_in_the_order_of_arrival() {
    let mut hub = WebSocketServer::new(100);
    hub.enqueue_inbound(said("first"));
    hub.enqueue_inbound(said("second"));
    assert_eq!(hub.receive_message(), Some(said("first")));
    hub.enqueue_inbound(said("third"));
    assert_eq!(hub.receive_message(), Some(said("second")));
    assert_eq!(hub.receive_message(), Some(said("third")));
    assert_eq!(hub.receive_message(), None);
}
