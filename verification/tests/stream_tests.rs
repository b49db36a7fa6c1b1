use doxle_shared::sockets::messages::BroadcastMessage;
use doxle_shared::stream::{
    classify_batch, classify_record, entity_kind_of, extract_id_from_pk, kind_name,
    parse_operation, EntityKind, MutationRecord, Operation, RecordError, RowImage,
};
use doxle_shared::document::Document;
use serde_json::Value;

fn document(members: &[(&str, Value)]) -> Document {
    let mut map = Document::new();
    for (name, value) in members {
        map.insert(name.to_string(), value.clone());
    }
    map
}

fn text(s: &str) -> Value {
    Value::String(s.to_string())
}

fn record(
    event: &str,
    before: Option<Document>,
    after: Option<Document>,
) -> MutationRecord {
    MutationRecord {
        event_name: event.to_string(),
        before_image: image(before),
        after_image: image(after),
    }
}

fn image(document: Option<Document>) -> RowImage {
    match document {
        Some(d) => RowImage::Present(d),
        None => RowImage::Absent,
    }
}

fn keyed(key: &str) -> Document {
    document(&[("PK", text(key)), ("name", text("n"))])
}

fn notification(outcome: Result<Option<BroadcastMessage>, RecordError>) -> BroadcastMessage {
    outcome.unwrap().unwrap()
}

#[test]
fn every_pair_of_the_table_gets_its_kind() {
    let prefixes = ["PROJECT#", "BLOCK#", "IMAGE#", "ANNOTATION#", "CLASS#"];
    let words = ["project", "block", "image", "annotation", "class"];
    let events = [("INSERT", "created"), ("MODIFY", "updated"), ("REMOVE", "deleted")];
    for (prefix, word) in prefixes.iter().zip(words.iter()) {
        for (event, suffix) in events.iter() {
            let key = format!("{}x1", prefix);
            let r = if *event == "REMOVE" {
                record(event, Some(keyed(&key)), None)
            } else {
                record(event, None, Some(keyed(&key)))
            };
            let n = notification(classify_record(&r));
            assert_eq!(n.kind, format!("{}_{}", word, suffix));
        }
    }
}

#[test]
fn kinds_are_spelled_as_in_the_table() {
    assert_eq!(kind_name(EntityKind::Project, Operation::Created), "project_created");
    assert_eq!(kind_name(EntityKind::Block, Operation::Created), "block_created");
    assert_eq!(kind_name(EntityKind::Image, Operation::Created), "image_created");
    assert_eq!(kind_name(EntityKind::Annotation, Operation::Created), "annotation_created");
    assert_eq!(kind_name(EntityKind::Class, Operation::Created), "class_created");
    assert_eq!(kind_name(EntityKind::Project, Operation::Updated), "project_updated");
    assert_eq!(kind_name(EntityKind::Block, Operation::Updated), "block_updated");
    assert_eq!(kind_name(EntityKind::Image, Operation::Updated), "image_updated");
    assert_eq!(kind_name(EntityKind::Annotation, Operation::Updated), "annotation_updated");
    assert_eq!(kind_name(EntityKind::Class, Operation::Updated), "class_updated");
    assert_eq!(kind_name(EntityKind::Project, Operation::Deleted), "project_deleted");
    assert_eq!(kind_name(EntityKind::Block, Operation::Deleted), "block_deleted");
    assert_eq!(kind_name(EntityKind::Image, Operation::Deleted), "image_deleted");
    assert_eq!(kind_name(EntityKind::Annotation, Operation::Deleted), "annotation_deleted");
    assert_eq!(kind_name(EntityKind::Class, Operation::Deleted), "class_deleted");
}

#[test]
fn unknown_prefix_yields_nothing() {
    for key in ["USER#u1", "INVITE#abc", "project#p1", "PROJECT", "", "#", "XPROJECT#p1"] {
        for event in ["INSERT", "MODIFY", "REMOVE"] {
            let r = record(event, Some(keyed(key)), Some(keyed(key)));
            assert_eq!(classify_record(&r), Ok(None), "{} {}", event, key);
        }
    }
}

#[test]
fn connection_rows_are_never_announced() {
    for event in ["INSERT", "MODIFY", "REMOVE", "OTHER"] {
        let r = record(event, Some(keyed("CONNECTION#c1")), Some(keyed("CONNECTION#c1")));
        assert_eq!(classify_record(&r), Ok(None));
        let r = record(event, Some(keyed("CONNECTION#c1")), None);
        assert_eq!(classify_record(&r), Ok(None));
    }
}

#[test]
fn unknown_event_name_yields_nothing() {
    for event in ["", "insert", "UPSERT", "INSERT ", "REMOVED"] {
        let r = record(event, None, Some(keyed("PROJECT#p1")));
        assert_eq!(classify_record(&r), Ok(None), "{:?}", event);
    }
}

#[test]
fn record_without_key_is_malformed() {
    let no_key = document(&[("name", text("n"))]);
    assert_eq!(
        classify_record(&record("INSERT", None, Some(no_key.clone()))),
        Err(RecordError::MissingKey)
    );
    assert_eq!(classify_record(&record("INSERT", None, None)), Err(RecordError::MissingKey));
    assert_eq!(
        classify_record(&record("REMOVE", Some(Document::new()), Some(Document::new()))),
        Err(RecordError::MissingKey)
    );
    let number_key = document(&[("PK", Value::from(7))]);
    assert_eq!(
        classify_record(&record("MODIFY", None, Some(number_key))),
        Err(RecordError::MissingKey)
    );
    let nested_key = document(&[("PK", Value::Object(document(&[("S", text("PROJECT#p1"))])))]);
    assert_eq!(
        classify_record(&record("MODIFY", None, Some(nested_key))),
        Err(RecordError::MissingKey)
    );
}

#[test]
fn an_image_that_cannot_be_read_fails_the_record() {
    let unread = |event: &str, before: RowImage, after: RowImage| MutationRecord {
        event_name: event.to_string(),
        before_image: before,
        after_image: after,
    };
    let good = RowImage::Present(keyed("BLOCK#b1"));
    // the image after counts and cannot be read
    assert_eq!(
        classify_record(&unread("MODIFY", good.clone(), RowImage::Undecodable)),
        Err(RecordError::UndecodableImage)
    );
    assert_eq!(
        classify_record(&unread("INSERT", RowImage::Absent, RowImage::Undecodable)),
        Err(RecordError::UndecodableImage)
    );
    // the image before counts and cannot be read
    assert_eq!(
        classify_record(&unread("REMOVE", RowImage::Undecodable, RowImage::Absent)),
        Err(RecordError::UndecodableImage)
    );
    assert_eq!(
        classify_record(&unread("REMOVE", RowImage::Undecodable, RowImage::Present(Document::new()))),
        Err(RecordError::UndecodableImage)
    );
    // the image before does not count
    let n = notification(classify_record(&unread("MODIFY", RowImage::Undecodable, good)));
    assert_eq!(n.kind, "block_updated");
}

#[test]
fn the_image_after_counts_unless_empty() {
    // after is there and has members: its key decides
    let r = record("MODIFY", Some(keyed("CONNECTION#c1")), Some(keyed("BLOCK#b1")));
    assert_eq!(notification(classify_record(&r)).kind, "block_updated");
    // after is empty: the key of before decides, the payload is still after
    let r = record("MODIFY", Some(keyed("BLOCK#b1")), Some(Document::new()));
    let n = notification(classify_record(&r));
    assert_eq!(n.kind, "block_updated");
    assert_eq!(n.data, Document::new());
    // after is absent
    let r = record("INSERT", Some(keyed("CLASS#k")), None);
    let n = notification(classify_record(&r));
    assert_eq!(n.kind, "class_created");
    assert_eq!(n.data, Document::new());
    // after has members but no key: before is not consulted
    let r = record(
        "MODIFY",
        Some(keyed("BLOCK#b1")),
        Some(document(&[("name", text("n"))])),
    );
    assert_eq!(classify_record(&r), Err(RecordError::MissingKey));
}

#[test]
fn create_and_update_forward_the_whole_image() {
    let image = document(&[
        ("PK", text("ANNOTATION#a1")),
        ("count", Value::from(3)),
        ("locked", Value::Bool(true)),
        ("tags", Value::Array(vec![text("x"), Value::Null])),
        ("nested", Value::Object(document(&[("k", text("v"))]))),
    ]);
    for (event, kind) in [("INSERT", "annotation_created"), ("MODIFY", "annotation_updated")] {
        let r = record(event, Some(keyed("ANNOTATION#a1")), Some(image.clone()));
        let n = notification(classify_record(&r));
        assert_eq!(n.kind, kind);
        assert_eq!(n.data, image);
    }
}

#[test]
fn delete_payload_is_the_identifier_alone() {
    let before = document(&[
        ("PK", text("BLOCK#b-42")),
        ("name", text("secret")),
        ("locked", Value::Bool(false)),
    ]);
    let n = notification(classify_record(&record("REMOVE", Some(before), None)));
    assert_eq!(n.kind, "block_deleted");
    assert_eq!(n.data, document(&[("id", text("b-42"))]));
    assert_eq!(n.data.len(), 1);
}

#[test]
fn delete_payload_ignores_the_image_after() {
    let after = document(&[("PK", text("CLASS#c9")), ("name", text("kept out"))]);
    let n = notification(classify_record(&record("REMOVE", None, Some(after))));
    assert_eq!(n.kind, "class_deleted");
    assert_eq!(n.data, document(&[("id", text("c9"))]));
}

#[test]
fn scenario_update_of_a_project() {
    let after = document(&[
        ("PK", text("PROJECT#p1")),
        ("project_id", text("p1")),
        ("name", text("Tower")),
        ("locked", Value::Bool(false)),
    ]);
    let r = record("MODIFY", Some(keyed("PROJECT#p1")), Some(after.clone()));
    let n = notification(classify_record(&r));
    assert_eq!(n.kind, "project_updated");
    let wire: Value = serde_json::from_slice(&n.encode().unwrap()).unwrap();
    let mut expected = after;
    expected.insert("type".to_string(), text("project_updated"));
    assert_eq!(wire, Value::Object(expected));
}

#[test]
fn scenario_delete_of_an_image() {
    let before = document(&[("PK", text("IMAGE#img7")), ("url", text("https://x/y.png"))]);
    let n = notification(classify_record(&record("REMOVE", Some(before), None)));
    let bytes = n.encode().unwrap();
    let wire: Value = serde_json::from_slice(&bytes).unwrap();
    let expected = document(&[("type", text("image_deleted")), ("id", text("img7"))]);
    assert_eq!(wire, Value::Object(expected));
    assert_eq!(String::from_utf8(bytes).unwrap(), "{\"id\":\"img7\",\"type\":\"image_deleted\"}");
}

#[test]
fn a_malformed_record_fails_alone() {
    let good = |key: &str| record("INSERT", None, Some(keyed(key)));
    let bad = record("INSERT", None, Some(document(&[("name", text("no key"))])));
    let batch = vec![good("PROJECT#p1"), good("BLOCK#b1"), bad, good("IMAGE#i1"), good("CLASS#c1")];
    let outcomes = classify_batch(&batch);
    assert_eq!(outcomes.len(), 5);
    assert_eq!(outcomes[2], Err(RecordError::MissingKey));
    let kinds: Vec<String> = [0usize, 1, 3, 4]
        .iter()
        .map(|i| outcomes[*i].clone().unwrap().unwrap().kind)
        .collect();
    assert_eq!(kinds, ["project_created", "block_created", "image_created", "class_created"]);
    // the others are classified as they are without the malformed one
    let alone = classify_batch(&vec![
        good("PROJECT#p1"),
        good("BLOCK#b1"),
        good("IMAGE#i1"),
        good("CLASS#c1"),
    ]);
    assert_eq!(alone[0], outcomes[0]);
    assert_eq!(alone[1], outcomes[1]);
    assert_eq!(alone[2], outcomes[3]);
    assert_eq!(alone[3], outcomes[4]);
}

#[test]
fn batch_keeps_the_order_of_the_records() {
    let batch = vec![
        record("REMOVE", Some(keyed("IMAGE#1")), None),
        record("MODIFY", None, Some(keyed("CONNECTION#c"))),
        record("INSERT", None, Some(keyed("IMAGE#2"))),
    ];
    let outcomes = classify_batch(&batch);
    assert_eq!(outcomes[0].clone().unwrap().unwrap().kind, "image_deleted");
    assert_eq!(outcomes[1], Ok(None));
    assert_eq!(outcomes[2].clone().unwrap().unwrap().kind, "image_created");
    assert_eq!(classify_batch(&Vec::new()), Vec::new());
    for (i, r) in batch.iter().enumerate() {
        assert_eq!(outcomes[i], classify_record(r));
    }
}

#[test]
fn identifier_is_what_follows_the_first_hash() {
    assert_eq!(extract_id_from_pk("PROJECT#p1"), "p1");
    assert_eq!(extract_id_from_pk("IMAGE#img7"), "img7");
    assert_eq!(extract_id_from_pk("IMAGE#"), "");
    assert_eq!(extract_id_from_pk("nohash"), "nohash");
    assert_eq!(extract_id_from_pk(""), "");
    assert_eq!(extract_id_from_pk("#x"), "x");
    assert_eq!(extract_id_from_pk("BLOCK#a#b"), "a#b");
    assert_eq!(extract_id_from_pk("CLASS#\u{e9}t\u{e9}"), "\u{e9}t\u{e9}");
}

#[test]
fn operations_and_kinds_are_read_exactly() {
    assert_eq!(parse_operation("INSERT"), Some(Operation::Created));
    assert_eq!(parse_operation("MODIFY"), Some(Operation::Updated));
    assert_eq!(parse_operation("REMOVE"), Some(Operation::Deleted));
    assert_eq!(parse_operation("Insert"), None);
    assert_eq!(entity_kind_of("PROJECT#"), Some(EntityKind::Project));
    assert_eq!(entity_kind_of("BLOCK#b"), Some(EntityKind::Block));
    assert_eq!(entity_kind_of("IMAGE#i"), Some(EntityKind::Image));
    assert_eq!(entity_kind_of("ANNOTATION#a"), Some(EntityKind::Annotation));
    assert_eq!(entity_kind_of("CLASS#c"), Some(EntityKind::Class));
    assert_eq!(entity_kind_of("CONNECTION#c"), None);
    assert_eq!(entity_kind_of("CLASS"), None);
}
