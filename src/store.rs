use vstd::prelude::*;

use crate::value::{Document, Value};

verus! {

/// One operation on the document store, to be performed by whoever runs a
/// capability machine. Only `SetFields` changes what the store holds.
#[derive(Debug, PartialEq)]
pub enum StoreCall {
    /// A no-op command that only checks that the store answers.
    Ping,
    /// Whether a collection of this name exists; no document is read.
    CollectionExists { collection: String },
    /// Every document of the collection, in ascending order of `_id`.
    FindAll { collection: String },
    /// The document of the collection whose `_id` is `id`, if there is one.
    FindOne { collection: String, id: Value },
    /// Sets each field of `changes` on the document whose `_id` is `id`,
    /// leaving its other fields as they are (see `fields_after_set`).
    SetFields { collection: String, id: Value, changes: Document },
}

/// What came back from a store call.
#[derive(Debug, PartialEq)]
pub enum StoreEvent {
    /// A ping or an update completed without error.
    Done,
    /// The answer to `CollectionExists`.
    Exists(bool),
    /// The answer to `FindAll`.
    Documents(Vec<Document>),
    /// The answer to `FindOne`.
    Found(Option<Document>),
    /// The call failed; the runner reports the error itself.
    Failed,
}

/// What a capability machine asks of its runner next.
#[derive(Debug, PartialEq)]
pub enum Action<R> {
    /// Perform this call and hand its outcome back to the machine.
    Call(StoreCall),
    /// Fulfil the reply slot of the request with this response.
    Reply(R),
    /// Give up on the request without a reply; the caller sees its reply slot
    /// closed.
    NoReply,
}

/// The document of `docs` whose `_id` is `id`: the answer that a store
/// holding `docs` gives to `FindOne`.
pub open spec fn lookup(docs: Seq<Document>, id: Value) -> Option<Document>
    decreases docs.len(),
{
    if docs.len() == 0 {
        None
    } else if docs[0]@.contains_key("_id"@) && docs[0]@["_id"@] == id {
        Some(docs[0])
    } else {
        lookup(docs.drop_first(), id)
    }
}

/// A document that `lookup` gives has the identifier that was asked for.
pub proof fn lemma_lookup_has_id(docs: Seq<Document>, id: Value)
    ensures
        lookup(docs, id) matches Some(d) ==> d@.contains_key("_id"@) && d@["_id"@] == id,
    decreases docs.len(),
{
    if docs.len() > 0 {
        lemma_lookup_has_id(docs.drop_first(), id);
    }
}

} // verus!
