use doxle_shared::sockets::broadcast::{
    _broadcast_to_all, _broadcast_to_connections, dispatch_to, BroadcastError, Dispatch, Push,
};
use doxle_shared::sockets::connections::{Connection, StoreUnavailable};
use doxle_shared::sockets::messages::BroadcastMessage;
use doxle_shared::document::Document;
use serde_json::Value;

fn connection(id: &str) -> Connection {
    Connection {
        connection_id: id.to_string(),
        user_id: format!("user-of-{}", id),
        connected_at: "2024-01-01T00:00:00+00:00".to_string(),
    }
}

fn ids(list: &[&str]) -> Vec<String> {
    list.iter().map(|s| s.to_string()).collect()
}

/// Runs a broadcast to its end; a push fails where `fails` says so.
fn run(mut dispatch: Dispatch, fails: &[&str]) -> (Vec<Push>, Dispatch) {
    let mut pushes = Vec::new();
    while let Some(push) = dispatch.next_push() {
        let delivered = !fails.contains(&push.connection_id.as_str());
        pushes.push(push);
        dispatch = dispatch.record(delivered);
    }
    (pushes, dispatch)
}

#[test]
fn scenario_one_of_three_pushes_fails() {
    let connections = vec![connection("c1"), connection("c2"), connection("c3")];
    let message = BroadcastMessage::_new("block_created", Document::new());
    let dispatch = _broadcast_to_all(Ok(&connections), &message).unwrap();
    let (pushes, done) = run(dispatch, &["c2"]);
    let attempted: Vec<&str> = pushes.iter().map(|p| p.connection_id.as_str()).collect();
    assert_eq!(attempted, ["c1", "c2", "c3"]);
    assert_eq!(done.delivered(), ids(&["c1", "c3"]));
    assert_eq!(done.failed(), ids(&["c2"]));
    assert!(done.is_done());
    assert_eq!(done.targets(), 3);
    assert_eq!(done.attempted(), 3);
}

#[test]
fn every_connection_is_tried_whatever_fails() {
    let names = ["a", "b", "c", "d"];
    let connections: Vec<Connection> = names.iter().map(|n| connection(n)).collect();
    for mask in 0u32..16 {
        let fails: Vec<&str> =
            names.iter().enumerate().filter(|(i, _)| mask & (1 << i) != 0).map(|(_, n)| *n).collect();
        let (pushes, done) = run(dispatch_to(&connections, vec![9, 9]), &fails);
        assert_eq!(pushes.len(), 4);
        for (push, name) in pushes.iter().zip(names.iter()) {
            assert_eq!(push.connection_id, *name);
            assert_eq!(push.data, vec![9, 9]);
        }
        assert_eq!(done.failed(), ids(&fails));
        assert_eq!(done.delivered().len(), 4 - fails.len());
    }
}

#[test]
fn the_bytes_pushed_are_the_wire_form() {
    let mut data = Document::new();
    data.insert("id".to_string(), Value::String("img7".to_string()));
    let message = BroadcastMessage::_new("image_deleted", data);
    let dispatch = _broadcast_to_all(Ok(&vec![connection("c1")]), &message).unwrap();
    let push = dispatch.next_push().unwrap();
    assert_eq!(push.connection_id, "c1");
    assert_eq!(push.data, message.encode().unwrap());
    assert_eq!(push.data, b"{\"id\":\"img7\",\"type\":\"image_deleted\"}".to_vec());
}

#[test]
fn no_connection_no_push() {
    let message = BroadcastMessage::_new("image_deleted", Document::new());
    let dispatch = _broadcast_to_all(Ok(&Vec::new()), &message).unwrap();
    assert!(dispatch.is_done());
    assert_eq!(dispatch.next_push(), None);
    assert_eq!(dispatch.attempted(), 0);
    assert!(dispatch.delivered().is_empty());
    assert!(dispatch.failed().is_empty());
}

#[test]
fn without_a_listing_nothing_is_pushed() {
    let message = BroadcastMessage::_new("image_deleted", Document::new());
    match _broadcast_to_all(Err(StoreUnavailable), &message) {
        Err(e) => assert_eq!(e, BroadcastError::RegistryUnavailable),
        Ok(dispatch) => panic!("a broadcast started: {:?}", dispatch),
    }
}

#[test]
fn next_push_does_not_advance() {
    let dispatch = Dispatch::new(ids(&["x", "y"]), vec![1]);
    assert_eq!(dispatch.next_push(), dispatch.next_push());
    assert_eq!(dispatch.attempted(), 0);
    let dispatch = dispatch.record(false);
    assert_eq!(dispatch.next_push().unwrap().connection_id, "y");
    assert_eq!(dispatch.attempted(), 1);
    assert!(!dispatch.is_done());
}

#[test]
fn recording_past_the_end_changes_nothing() {
    let dispatch = Dispatch::new(ids(&["x"]), vec![1]).record(true);
    assert!(dispatch.is_done());
    let dispatch = dispatch.record(false).record(true);
    assert_eq!(dispatch.attempted(), 1);
    assert_eq!(dispatch.delivered(), ids(&["x"]));
    assert!(dispatch.failed().is_empty());
}

#[test]
fn broadcast_to_named_connections() {
    let message = BroadcastMessage::_new("class_created", Document::new());
    let dispatch = _broadcast_to_connections(ids(&["k1", "k2"]), &message).unwrap();
    let (pushes, done) = run(dispatch, &["k1", "k2"]);
    assert_eq!(pushes.len(), 2);
    assert_eq!(pushes[0].data, b"{\"type\":\"class_created\"}".to_vec());
    assert_eq!(done.failed(), ids(&["k1", "k2"]));
    assert!(done.delivered().is_empty());
}

#[test]
fn a_connection_listed_twice_is_pushed_to_twice() {
    let (pushes, done) = run(Dispatch::new(ids(&["d", "d"]), Vec::new()), &[]);
    assert_eq!(pushes.len(), 2);
    assert_eq!(done.delivered(), ids(&["d", "d"]));
}
