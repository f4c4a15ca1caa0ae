use config_api::collection::{CollectionRead, GetCollectionResponse};
use config_api::store::{Action, StoreCall, StoreEvent};
use config_api::value::{Document, Value};

fn doc(fields: Vec<(&str, Value)>) -> Document {
    Document { fields: fields.into_iter().map(|(k, v)| (k.to_string(), v)).collect() }
}

#[test]
fn collection_read_checks_existence_first() {
    let (_, action) = CollectionRead::start("servers".to_string());
    assert_eq!(action, Action::Call(StoreCall::CollectionExists { collection: "servers".to_string() }));
}

#[test]
fn absent_collection_is_not_found() {
    let (m, _) = CollectionRead::start("somecollection".to_string());
    let (m, action) = m.resume(StoreEvent::Exists(false));
    assert_eq!(
        action,
        Action::Reply(GetCollectionResponse::NotFound("Collection `somecollection` does not exist".to_string()))
    );
    let (_, action) = m.resume(StoreEvent::Documents(vec![]));
    assert_eq!(action, Action::NoReply);
}

#[test]
fn empty_collection_gives_empty_list() {
    let (m, _) = CollectionRead::start("servers".to_string());
    let (m, action) = m.resume(StoreEvent::Exists(true));
    assert_eq!(action, Action::Call(StoreCall::FindAll { collection: "servers".to_string() }));
    let (_, action) = m.resume(StoreEvent::Documents(vec![]));
    assert_eq!(action, Action::Reply(GetCollectionResponse::Documents(vec![])));
}

#[test]
fn collection_documents_are_passed_on_in_order() {
    let (m, _) = CollectionRead::start("servers".to_string());
    let (m, _) = m.resume(StoreEvent::Exists(true));
    let docs = vec![
        doc(vec![("_id", Value::Str("a".to_string())), ("n", Value::Int32(1))]),
        doc(vec![("_id", Value::Str("b".to_string())), ("n", Value::Int32(2))]),
    ];
    let (_, action) = m.resume(StoreEvent::Documents(docs));
    assert_eq!(
        action,
        Action::Reply(GetCollectionResponse::Documents(vec![
            doc(vec![("_id", Value::Str("a".to_string())), ("n", Value::Int32(1))]),
            doc(vec![("_id", Value::Str("b".to_string())), ("n", Value::Int32(2))]),
        ]))
    );
}

#[test]
fn collection_store_failures_give_no_reply() {
    let (m, _) = CollectionRead::start("servers".to_string());
    let (_, action) = m.resume(StoreEvent::Failed);
    assert_eq!(action, Action::NoReply);

    let (m, _) = CollectionRead::start("servers".to_string());
    let (m, _) = m.resume(StoreEvent::Exists(true));
    let (_, action) = m.resume(StoreEvent::Failed);
    assert_eq!(action, Action::NoReply);
}
