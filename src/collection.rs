use vstd::prelude::*;

use crate::store::{Action, StoreCall, StoreEvent};
use crate::value::Document;

verus! {

/// The answer to a request for a whole collection.
#[derive(Debug, PartialEq)]
pub enum GetCollectionResponse {
    /// Every document of the collection, in ascending order of `_id`.
    Documents(Vec<Document>),
    /// The collection does not exist; the text says which one.
    NotFound(String),
}

/// The message for a collection that does not exist.
pub open spec fn missing_collection_message(collection: Seq<char>) -> Seq<char> {
    "Collection `"@ + collection + "` does not exist"@
}

fn missing_collection(collection: &String) -> (r: String)
    ensures
        r@ == missing_collection_message(collection@),
{
    let mut message = "Collection `".to_owned();
    message.append(collection.as_str());
    message.append("` does not exist");
    message
}

/// The state of one request for a collection.
pub enum CollectionRead {
    /// Whether the collection exists was asked.
    Checking { collection: String },
    /// Its documents were asked for.
    Fetching,
    /// A reply was given, or none will be.
    Finished,
}

impl CollectionRead {
    /// The first step for a request for `collection`: ask whether it exists.
    pub open spec fn started(
        collection: String,
        m: CollectionRead,
        a: Action<GetCollectionResponse>,
    ) -> bool {
        &&& m == CollectionRead::Checking { collection }
        &&& a matches Action::Call(StoreCall::CollectionExists { collection: c })
        &&& c == collection
    }

    /// The step from state `self` on `event` to state `m` and action `a`.
    pub open spec fn next(
        self,
        event: StoreEvent,
        m: CollectionRead,
        a: Action<GetCollectionResponse>,
    ) -> bool {
        match self {
            CollectionRead::Checking { collection } => match event {
                StoreEvent::Exists(true) => {
                    &&& m is Fetching
                    &&& a == Action::<GetCollectionResponse>::Call(
                        StoreCall::FindAll { collection },
                    )
                },
                StoreEvent::Exists(false) => {
                    &&& m is Finished
                    &&& a matches Action::Reply(GetCollectionResponse::NotFound(message))
                    &&& message@ == missing_collection_message(collection@)
                },
                _ => m is Finished && a is NoReply,
            },
            CollectionRead::Fetching => match event {
                StoreEvent::Documents(docs) => {
                    &&& m is Finished
                    &&& a == Action::Reply(GetCollectionResponse::Documents(docs))
                },
                _ => m is Finished && a is NoReply,
            },
            CollectionRead::Finished => m is Finished && a is NoReply,
        }
    }

    /// Starts serving a request for `collection`.
    pub fn start(collection: String) -> (r: (CollectionRead, Action<GetCollectionResponse>))
        ensures
            CollectionRead::started(collection, r.0, r.1),
    {
        let call = StoreCall::CollectionExists { collection: collection.clone() };
        (CollectionRead::Checking { collection }, Action::Call(call))
    }

    /// Takes the outcome of the last call and says what comes next.
    pub fn resume(self, event: StoreEvent) -> (r: (CollectionRead, Action<GetCollectionResponse>))
        ensures
            self.next(event, r.0, r.1),
    {
        match self {
            CollectionRead::Checking { collection } => match event {
                StoreEvent::Exists(exists) => {
                    if exists {
                        (CollectionRead::Fetching, Action::Call(StoreCall::FindAll { collection }))
                    } else {
                        let message = missing_collection(&collection);
                        (
                            CollectionRead::Finished,
                            Action::Reply(GetCollectionResponse::NotFound(message)),
                        )
                    }
                },
                _ => (CollectionRead::Finished, Action::NoReply),
            },
            CollectionRead::Fetching => match event {
                StoreEvent::Documents(docs) => (
                    CollectionRead::Finished,
                    Action::Reply(GetCollectionResponse::Documents(docs)),
                ),
                _ => (CollectionRead::Finished, Action::NoReply),
            },
            CollectionRead::Finished => (CollectionRead::Finished, Action::NoReply),
        }
    }
}

/// A collection that does not exist is reported as missing, by its name, and
/// never as an empty list.
pub proof fn lemma_absent_collection_not_found(
    collection: String,
    m1: CollectionRead,
    a1: Action<GetCollectionResponse>,
    m2: CollectionRead,
    a2: Action<GetCollectionResponse>,
)
    requires
        CollectionRead::started(collection, m1, a1),
        m1.next(StoreEvent::Exists(false), m2, a2),
    ensures
        a2 matches Action::Reply(GetCollectionResponse::NotFound(message))
            && message@ == missing_collection_message(collection@),
        !(a2 matches Action::Reply(GetCollectionResponse::Documents(_))),
        m2 is Finished,
{
}

/// A collection that exists and holds no document is answered with an empty
/// list.
pub proof fn lemma_empty_collection_empty_list(
    collection: String,
    docs: Vec<Document>,
    m1: CollectionRead,
    a1: Action<GetCollectionResponse>,
    m2: CollectionRead,
    a2: Action<GetCollectionResponse>,
    m3: CollectionRead,
    a3: Action<GetCollectionResponse>,
)
    requires
        CollectionRead::started(collection, m1, a1),
        m1.next(StoreEvent::Exists(true), m2, a2),
        m2.next(StoreEvent::Documents(docs), m3, a3),
        docs@.len() == 0,
    ensures
        a2 matches Action::Call(StoreCall::FindAll { collection: c }) && c == collection,
        a3 matches Action::Reply(GetCollectionResponse::Documents(list)) && list@.len() == 0,
        m3 is Finished,
{
}

} // verus!
