use config_api::document::{DocumentRead, GetDocumentRequest, GetDocumentResponse};
use config_api::store::{Action, StoreCall, StoreEvent};
use config_api::value::{Document, Value};

fn text(s: &str) -> Value {
    Value::Str(s.to_string())
}

fn doc(fields: Vec<(&str, Value)>) -> Document {
    Document { fields: fields.into_iter().map(|(k, v)| (k.to_string(), v)).collect() }
}

fn request(id: &str) -> GetDocumentRequest {
    GetDocumentRequest { collection: "servers".to_string(), id: id.to_string() }
}

#[test]
fn document_read_looks_up_requested_id() {
    let (_, action) = DocumentRead::start(request("alpha"));
    assert_eq!(action, Action::Call(StoreCall::FindOne { collection: "servers".to_string(), id: text("alpha") }));
}

#[test]
fn plain_document_is_returned_unchanged() {
    let (m, _) = DocumentRead::start(request("alpha"));
    let (_, action) = m.resume(StoreEvent::Found(Some(doc(vec![("_id", text("alpha")), ("ip", text("10.0.0.1"))]))));
    assert_eq!(
        action,
        Action::Reply(GetDocumentResponse::Document(doc(vec![("_id", text("alpha")), ("ip", text("10.0.0.1"))])))
    );
}

#[test]
fn alias_returns_linked_document() {
    let (m, _) = DocumentRead::start(request("alpha"));
    let (m, action) = m.resume(StoreEvent::Found(Some(doc(vec![("_id", text("alpha")), ("_links", text("beta"))]))));
    assert_eq!(action, Action::Call(StoreCall::FindOne { collection: "servers".to_string(), id: text("beta") }));
    let beta = doc(vec![("_id", text("beta")), ("_links", text("gamma")), ("ip", text("10.0.0.9"))]);
    let (_, action) = m.resume(StoreEvent::Found(Some(beta)));
    assert_eq!(
        action,
        Action::Reply(GetDocumentResponse::Document(doc(vec![
            ("_id", text("beta")),
            ("_links", text("gamma")),
            ("ip", text("10.0.0.9")),
        ])))
    );
}

#[test]
fn dangling_alias_reports_target_id() {
    let (m, _) = DocumentRead::start(request("alpha"));
    let (m, _) = m.resume(StoreEvent::Found(Some(doc(vec![("_id", text("alpha")), ("_links", text("beta"))]))));
    let (_, action) = m.resume(StoreEvent::Found(None));
    assert_eq!(
        action,
        Action::Reply(GetDocumentResponse::NotFound(
            "Document with id `beta` not found in `servers` collection".to_string()
        ))
    );
}

#[test]
fn object_id_alias_is_followed() {
    let oid = "65a1b2c3d4e5f60718293a4b";
    let (m, _) = DocumentRead::start(request("alpha"));
    let (m, action) = m.resume(StoreEvent::Found(Some(doc(vec![("_links", Value::ObjectId(oid.to_string()))]))));
    assert_eq!(
        action,
        Action::Call(StoreCall::FindOne { collection: "servers".to_string(), id: Value::ObjectId(oid.to_string()) })
    );
    let (_, action) = m.resume(StoreEvent::Found(None));
    assert_eq!(
        action,
        Action::Reply(GetDocumentResponse::NotFound(format!(
            "Document with id `{oid}` not found in `servers` collection"
        )))
    );
}

#[test]
fn missing_document_reports_requested_id() {
    let (m, _) = DocumentRead::start(request("someid"));
    let (_, action) = m.resume(StoreEvent::Found(None));
    assert_eq!(
        action,
        Action::Reply(GetDocumentResponse::NotFound(
            "Document with id `someid` not found in `servers` collection".to_string()
        ))
    );
}

#[test]
fn document_store_failures_give_no_reply() {
    let (m, _) = DocumentRead::start(request("alpha"));
    let (_, action) = m.resume(StoreEvent::Failed);
    assert_eq!(action, Action::NoReply);

    let (m, _) = DocumentRead::start(request("alpha"));
    let (m, _) = m.resume(StoreEvent::Found(Some(doc(vec![("_links", text("beta"))]))));
    let (_, action) = m.resume(StoreEvent::Failed);
    assert_eq!(action, Action::NoReply);
}
