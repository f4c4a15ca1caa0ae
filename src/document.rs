use vstd::prelude::*;

use crate::store::{Action, StoreCall, StoreEvent, lemma_lookup_has_id, lookup};
use crate::value::{Document, Value, id_string, id_text, link_of, link_target, links_name};

verus! {

/// A request for one document of a collection.
#[derive(Debug)]
pub struct GetDocumentRequest {
    pub collection: String,
    pub id: String,
}

/// The answer to a request for one document.
#[derive(Debug, PartialEq)]
pub enum GetDocumentResponse {
    Document(Document),
    /// No document has the identifier that was last looked up.
    NotFound(String),
}

/// The message for an identifier that no document of the collection has.
pub open spec fn missing_document_message(id: Seq<char>, collection: Seq<char>) -> Seq<char> {
    "Document with id `"@ + id + "` not found in `"@ + collection + "` collection"@
}

fn missing_document(id: &String, collection: &String) -> (r: String)
    ensures
        r@ == missing_document_message(id@, collection@),
{
    let mut message = "Document with id `".to_owned();
    message.append(id.as_str());
    message.append("` not found in `");
    message.append(collection.as_str());
    message.append("` collection");
    message
}

/// The state of one request for a document.
pub enum DocumentRead {
    /// The document of the requested identifier was asked for.
    Direct { collection: String, id: String },
    /// It was an alias, and the document it names was asked for; `id` is the
    /// text of that identifier.
    Linked { collection: String, id: String },
    /// A reply was given, or none will be.
    Finished,
}

impl DocumentRead {
    /// The first step for `request`: look up the requested identifier.
    pub open spec fn started(
        request: GetDocumentRequest,
        m: DocumentRead,
        a: Action<GetDocumentResponse>,
    ) -> bool {
        &&& m == DocumentRead::Direct { collection: request.collection, id: request.id }
        &&& a matches Action::Call(StoreCall::FindOne { collection, id: Value::Str(s) })
        &&& collection == request.collection
        &&& s == request.id
    }

    /// The reply once the lookup of `id` in `collection` found `found`.
    pub open spec fn answered(
        collection: String,
        id: String,
        found: Option<Document>,
        a: Action<GetDocumentResponse>,
    ) -> bool {
        match found {
            Some(d) => a == Action::Reply(GetDocumentResponse::Document(d)),
            None => {
                &&& a matches Action::Reply(GetDocumentResponse::NotFound(message))
                &&& message@ == missing_document_message(id@, collection@)
            },
        }
    }

    /// The step from state `self` on `event` to state `m` and action `a`.
    /// Only one alias is followed: the document that an alias names is
    /// returned as it is, `_links` or not.
    pub open spec fn next(
        self,
        event: StoreEvent,
        m: DocumentRead,
        a: Action<GetDocumentResponse>,
    ) -> bool {
        match self {
            DocumentRead::Direct { collection, id } => match event {
                StoreEvent::Found(Some(d)) => match link_of(d) {
                    Some(target) => {
                        &&& m matches DocumentRead::Linked { collection: c, id: t }
                        &&& c == collection
                        &&& t@ == id_text(target)
                        &&& a matches Action::Call(StoreCall::FindOne { collection: c2, id: i2 })
                        &&& c2 == collection
                        &&& i2 == target
                    },
                    None => m is Finished && DocumentRead::answered(collection, id, Some(d), a),
                },
                StoreEvent::Found(None) => m is Finished && DocumentRead::answered(
                    collection,
                    id,
                    None,
                    a,
                ),
                _ => m is Finished && a is NoReply,
            },
            DocumentRead::Linked { collection, id } => match event {
                StoreEvent::Found(found) => m is Finished && DocumentRead::answered(
                    collection,
                    id,
                    found,
                    a,
                ),
                _ => m is Finished && a is NoReply,
            },
            DocumentRead::Finished => m is Finished && a is NoReply,
        }
    }

    /// Starts serving `request`.
    pub fn start(request: GetDocumentRequest) -> (r: (DocumentRead, Action<GetDocumentResponse>))
        ensures
            DocumentRead::started(request, r.0, r.1),
    {
        let call = StoreCall::FindOne {
            collection: request.collection.clone(),
            id: Value::Str(request.id.clone()),
        };
        (DocumentRead::Direct { collection: request.collection, id: request.id }, Action::Call(call))
    }

    fn answer(collection: String, id: String, found: Option<Document>) -> (r: (
        DocumentRead,
        Action<GetDocumentResponse>,
    ))
        ensures
            r.0 is Finished,
            DocumentRead::answered(collection, id, found, r.1),
    {
        match found {
            Some(d) => (DocumentRead::Finished, Action::Reply(GetDocumentResponse::Document(d))),
            None => {
                let message = missing_document(&id, &collection);
                (DocumentRead::Finished, Action::Reply(GetDocumentResponse::NotFound(message)))
            },
        }
    }

    /// Takes the outcome of the last call and says what comes next.
    pub fn resume(self, event: StoreEvent) -> (r: (DocumentRead, Action<GetDocumentResponse>))
        ensures
            self.next(event, r.0, r.1),
    {
        match self {
            DocumentRead::Direct { collection, id } => match event {
                StoreEvent::Found(Some(d)) => match link_target(&d) {
                    Some(target) => {
                        let text = id_string(&target);
                        let call = StoreCall::FindOne { collection: collection.clone(), id: target };
                        (DocumentRead::Linked { collection, id: text }, Action::Call(call))
                    },
                    None => DocumentRead::answer(collection, id, Some(d)),
                },
                StoreEvent::Found(None) => DocumentRead::answer(collection, id, None),
                _ => (DocumentRead::Finished, Action::NoReply),
            },
            DocumentRead::Linked { collection, id } => match event {
                StoreEvent::Found(found) => DocumentRead::answer(collection, id, found),
                _ => (DocumentRead::Finished, Action::NoReply),
            },
            DocumentRead::Finished => (DocumentRead::Finished, Action::NoReply),
        }
    }
}

/// A document without a `_links` field is returned as it is.
pub proof fn lemma_plain_document_returned(
    request: GetDocumentRequest,
    docs: Seq<Document>,
    d: Document,
    m1: DocumentRead,
    a1: Action<GetDocumentResponse>,
    m2: DocumentRead,
    a2: Action<GetDocumentResponse>,
)
    requires
        DocumentRead::started(request, m1, a1),
        lookup(docs, Value::Str(request.id)) == Some(d),
        !d@.contains_key(links_name()),
        m1.next(StoreEvent::Found(lookup(docs, Value::Str(request.id))), m2, a2),
    ensures
        a2 == Action::Reply(GetDocumentResponse::Document(d)),
        m2 is Finished,
{
}

/// An alias is resolved: when the requested document names another one in
/// its `_links` field and that one exists, the other document is returned,
/// with the identifier that the alias names, and no further alias is followed.
pub proof fn lemma_alias_resolved(
    request: GetDocumentRequest,
    docs: Seq<Document>,
    alias: Document,
    m1: DocumentRead,
    a1: Action<GetDocumentResponse>,
    m2: DocumentRead,
    a2: Action<GetDocumentResponse>,
    m3: DocumentRead,
    a3: Action<GetDocumentResponse>,
)
    requires
        DocumentRead::started(request, m1, a1),
        lookup(docs, Value::Str(request.id)) == Some(alias),
        link_of(alias) is Some,
        lookup(docs, link_of(alias)->0) is Some,
        m1.next(StoreEvent::Found(Some(alias)), m2, a2),
        m2.next(StoreEvent::Found(lookup(docs, link_of(alias)->0)), m3, a3),
    ensures
        a2 matches Action::Call(StoreCall::FindOne { collection, id })
            && collection == request.collection && id == link_of(alias)->0,
        a3 matches Action::Reply(GetDocumentResponse::Document(target))
            && target == lookup(docs, link_of(alias)->0)->0
            && target@["_id"@] == link_of(alias)->0,
        m3 is Finished,
{
    lemma_lookup_has_id(docs, link_of(alias)->0);
}

/// An alias whose target does not exist is reported with the identifier of
/// the target, the last one looked up, and not with the requested one.
pub proof fn lemma_dangling_alias_reported(
    request: GetDocumentRequest,
    docs: Seq<Document>,
    alias: Document,
    m1: DocumentRead,
    a1: Action<GetDocumentResponse>,
    m2: DocumentRead,
    a2: Action<GetDocumentResponse>,
    m3: DocumentRead,
    a3: Action<GetDocumentResponse>,
)
    requires
        DocumentRead::started(request, m1, a1),
        lookup(docs, Value::Str(request.id)) == Some(alias),
        link_of(alias) is Some,
        lookup(docs, link_of(alias)->0) is None,
        m1.next(StoreEvent::Found(Some(alias)), m2, a2),
        m2.next(StoreEvent::Found(lookup(docs, link_of(alias)->0)), m3, a3),
    ensures
        a3 matches Action::Reply(GetDocumentResponse::NotFound(message))
            && message@ == missing_document_message(
            id_text(link_of(alias)->0),
            request.collection@,
        ),
        m3 is Finished,
{
}

} // verus!
