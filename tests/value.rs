use config_api::value::{id_string, link_target, Document, Value};

fn text(s: &str) -> Value {
    Value::Str(s.to_string())
}

fn doc(fields: Vec<(&str, Value)>) -> Document {
    Document { fields: fields.into_iter().map(|(k, v)| (k.to_string(), v)).collect() }
}

#[test]
fn get_finds_first_field_of_a_name() {
    let d = doc(vec![("a", Value::Int32(1)), ("b", text("x")), ("a", Value::Int32(2))]);
    assert_eq!(d.get(&"a".to_string()), Some(&Value::Int32(1)));
    assert_eq!(d.get(&"b".to_string()), Some(&text("x")));
    assert_eq!(d.get(&"c".to_string()), None);
    assert_eq!(Document::new().get(&"a".to_string()), None);
}

#[test]
fn set_fields_updates_and_appends() {
    let mut d = doc(vec![("_id", text("alpha")), ("hostname", text("server1")), ("ip", text("10.0.0.1"))]);
    d.set_fields(doc(vec![("ip", text("10.0.0.2")), ("port", Value::Int64(8080))]));
    assert_eq!(
        d,
        doc(vec![
            ("_id", text("alpha")),
            ("hostname", text("server1")),
            ("ip", text("10.0.0.2")),
            ("port", Value::Int64(8080)),
        ])
    );
}

#[test]
fn set_fields_with_no_changes_keeps_document() {
    let mut d = doc(vec![("a", Value::Bool(true)), ("b", Value::Null)]);
    d.set_fields(Document::new());
    assert_eq!(d, doc(vec![("a", Value::Bool(true)), ("b", Value::Null)]));
}

#[test]
fn link_target_reads_identifier_links() {
    let by_name = doc(vec![("_id", text("alpha")), ("_links", text("beta"))]);
    assert_eq!(link_target(&by_name), Some(text("beta")));
    let by_object_id = doc(vec![("_links", Value::ObjectId("65a1b2c3d4e5f60718293a4b".to_string()))]);
    assert_eq!(
        link_target(&by_object_id),
        Some(Value::ObjectId("65a1b2c3d4e5f60718293a4b".to_string()))
    );
}

#[test]
fn link_target_ignores_other_values() {
    assert_eq!(link_target(&doc(vec![("_id", text("alpha"))])), None);
    assert_eq!(link_target(&doc(vec![("_links", Value::Int32(3))])), None);
    assert_eq!(link_target(&doc(vec![("_links", Value::Array(vec![text("beta")]))])), None);
}

#[test]
fn id_string_gives_identifier_text() {
    assert_eq!(id_string(&text("beta")), "beta");
    assert_eq!(id_string(&Value::ObjectId("65a1b2c3d4e5f60718293a4b".to_string())), "65a1b2c3d4e5f60718293a4b");
}
