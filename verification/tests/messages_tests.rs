use doxle_shared::sockets::messages::{
    encoded, BroadcastMessage, DecodeError, EncodeError, WebSocketAction, WebSocketMessage,
};
use doxle_shared::document::Document;
use serde_json::Value;

fn text(s: &str) -> Value {
    Value::String(s.to_string())
}

fn object(members: &[(&str, Value)]) -> Document {
    let mut map = Document::new();
    for (name, value) in members {
        map.insert(name.to_string(), value.clone());
    }
    map
}

const ALL_ACTIONS: [(WebSocketAction, &str); 16] = [
    (WebSocketAction::CreateProject, "create_project"),
    (WebSocketAction::UpdateProject, "update_project"),
    (WebSocketAction::DeleteProject, "delete_project"),
    (WebSocketAction::CreateBlock, "create_block"),
    (WebSocketAction::UpdateBlock, "update_block"),
    (WebSocketAction::DeleteBlock, "delete_block"),
    (WebSocketAction::CreateImage, "create_image"),
    (WebSocketAction::UpdateImage, "update_image"),
    (WebSocketAction::DeleteImage, "delete_image"),
    (WebSocketAction::CreateAnnotation, "create_annotation"),
    (WebSocketAction::UpdateAnnotation, "update_annotation"),
    (WebSocketAction::DeleteAnnotation, "delete_annotation"),
    (WebSocketAction::BatchCreateAnnotations, "batch_create_annotations"),
    (WebSocketAction::CreateClass, "create_class"),
    (WebSocketAction::UpdateClass, "update_class"),
    (WebSocketAction::DeleteClass, "delete_class"),
];

#[test]
fn actions_have_their_wire_names() {
    for (action, name) in ALL_ACTIONS.iter() {
        assert_eq!(action.name(), *name);
        assert_eq!(WebSocketAction::from_name(name), Some(*action));
    }
}

#[test]
fn other_names_are_no_action() {
    for name in ["", "createProject", "CREATE_PROJECT", "create_project ", "delete", "ping"] {
        assert_eq!(WebSocketAction::from_name(name), None, "{:?}", name);
    }
}

#[test]
fn new_message_keeps_kind_and_data() {
    let data = object(&[("a", Value::from(1))]);
    let m = BroadcastMessage::_new("block_updated", data.clone());
    assert_eq!(m.kind, "block_updated");
    assert_eq!(m.data, data);
}

#[test]
fn wire_form_merges_type_beside_the_fields() {
    let data = object(&[
        ("name", text("Tower \"A\"")),
        ("count", Value::from(2)),
        ("nested", Value::Object(object(&[("k", Value::Null)]))),
    ]);
    let m = BroadcastMessage::_new("project_created", data.clone());
    let bytes = m.encode().unwrap();
    let back: Value = serde_json::from_slice(&bytes).unwrap();
    let mut expected = data;
    expected.insert("type".to_string(), text("project_created"));
    assert_eq!(back, Value::Object(expected));
    assert_eq!(
        String::from_utf8(bytes).unwrap(),
        "{\"count\":2,\"name\":\"Tower \\\"A\\\"\",\"nested\":{\"k\":null},\"type\":\"project_created\"}"
    );
    // the message itself is untouched
    assert!(!m.data.contains_key("type"));
}

#[test]
fn wire_form_of_an_empty_payload() {
    let m = BroadcastMessage::_new("class_updated", Document::new());
    assert_eq!(String::from_utf8(m.encode().unwrap()).unwrap(), "{\"type\":\"class_updated\"}");
}

#[test]
fn kind_wins_over_a_payload_member_named_type() {
    let data = object(&[("type", text("building")), ("name", text("p"))]);
    let m = BroadcastMessage::_new("project_updated", data);
    assert_eq!(
        String::from_utf8(m.encode().unwrap()).unwrap(),
        "{\"name\":\"p\",\"type\":\"project_updated\"}"
    );
}

#[test]
fn encoder_answers_are_passed_on() {
    assert_eq!(encoded(Ok(vec![1, 2, 3])), Ok(vec![1, 2, 3]));
    let failure = serde_json::from_str::<Value>("{").unwrap_err();
    assert_eq!(encoded(Err(failure)), Err(EncodeError::Rejected));
}

#[test]
fn envelope_is_action_plus_the_other_fields() {
    let m = WebSocketMessage::parse(b"{\"action\": \"update_block\", \"block_id\": \"b1\", \"n\": 3}")
        .unwrap();
    assert_eq!(m.action, "update_block");
    assert_eq!(m.data, object(&[("block_id", text("b1")), ("n", Value::from(3))]));
}

#[test]
fn envelope_with_only_an_action_has_empty_data() {
    let m = WebSocketMessage::parse(b"{\"action\":\"x\"}").unwrap();
    assert_eq!(m.action, "x");
    assert!(m.data.is_empty());
}

#[test]
fn envelope_needs_a_string_action() {
    for body in ["{}", "{\"Action\":\"x\"}", "{\"action\":1}", "{\"action\":null}", "{\"action\":[\"x\"]}"] {
        assert_eq!(
            WebSocketMessage::parse(body.as_bytes()),
            Err(DecodeError::MissingAction),
            "{}",
            body
        );
    }
}

#[test]
fn bytes_that_are_no_object_are_malformed() {
    for body in ["", "{", "null", "[1,2]", "\"action\"", "42", "{\"action\":\"x\"} trailing", "not json"] {
        match WebSocketMessage::parse(body.as_bytes()) {
            Err(DecodeError::Malformed(detail)) => assert!(!detail.is_empty()),
            other => panic!("{:?} gave {:?}", body, other),
        }
    }
    assert!(matches!(
        WebSocketMessage::parse(&[0xff, 0xfe]),
        Err(DecodeError::Malformed(_))
    ));
}

#[test]
fn from_document_takes_the_action_out() {
    let doc = object(&[("action", text("delete_image")), ("image_id", text("i1"))]);
    let m = WebSocketMessage::from_document(doc).unwrap();
    assert_eq!(m.action, "delete_image");
    assert_eq!(m.data, object(&[("image_id", text("i1"))]));
    assert_eq!(
        WebSocketMessage::from_document(object(&[("image_id", text("i1"))])),
        Err(DecodeError::MissingAction)
    );
}

#[test]
fn from_parsed_maps_both_answers() {
    let ok = serde_json::from_str::<Document>("{\"action\":\"a\",\"k\":true}");
    let m = WebSocketMessage::from_parsed(ok).unwrap();
    assert_eq!(m.action, "a");
    assert_eq!(m.data, object(&[("k", Value::Bool(true))]));
    let err = serde_json::from_str::<Document>("[");
    let expected = err.as_ref().unwrap_err().to_string();
    assert_eq!(WebSocketMessage::from_parsed(err), Err(DecodeError::Malformed(expected)));
}
