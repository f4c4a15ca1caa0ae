use vstd::prelude::*;

use crate::store::{Action, StoreCall, StoreEvent};
use crate::value::{Document, Value, fields_after_set, lemma_fields_map_domain};

verus! {

/// A request to set some fields of one document.
pub struct PatchConfigRequest {
    pub collection: String,
    pub id: String,
    pub changes: Document,
}

/// The answer to a patch request.
#[derive(Debug, PartialEq, Eq)]
pub enum PatchConfigResponse {
    /// The fields were set.
    Updated,
    /// Some requested field may not be patched; nothing was changed.
    Unauthorized,
}

/// The `_id` of the document that lists the fields that may be patched.
pub open spec fn authorization_id() -> Seq<char> {
    "_authorization"@
}

/// The field of the authorization document that lists them.
pub open spec fn allowed_fields_name() -> Seq<char> {
    "patchAllowedFields"@
}

/// Whether `items` holds the string `name`.
pub open spec fn lists_name(items: Seq<Value>, name: Seq<char>) -> bool {
    exists|j: int| 0 <= j < items.len() && (#[trigger] items[j] matches Value::Str(s) && s@ == name)
}

/// Whether the authorization document allows a patch of every field of
/// `changes`: it exists, its allow-list is an array, and that array holds the
/// name of each field.
pub open spec fn permits(authorization: Option<Document>, changes: Document) -> bool {
    match authorization {
        Some(d) => d@.contains_key(allowed_fields_name()) && match d@[allowed_fields_name()] {
            Value::Array(items) => forall|name: Seq<char>| #[trigger]
                changes@.contains_key(name) ==> lists_name(items@, name),
            _ => false,
        },
        None => false,
    }
}

fn lists(items: &Vec<Value>, name: &String) -> (r: bool)
    ensures
        r == lists_name(items@, name@),
{
    let mut j: usize = 0;
    while j < items.len()
        invariant
            j <= items@.len(),
            forall|i: int| 0 <= i < j ==> !(#[trigger] items@[i] matches Value::Str(s) && s@ == name@),
        decreases items@.len() - j,
    {
        match &items[j] {
            Value::Str(s) => {
                if *s == *name {
                    return true;
                }
            },
            _ => {},
        }
        j = j + 1;
    }
    false
}

/// The authorization gate: whether `authorization`, the answer to the lookup
/// of the authorization document, allows a patch of every field of `changes`.
pub fn is_patch_allowed(authorization: &Option<Document>, changes: &Document) -> (r: bool)
    ensures
        r == permits(*authorization, *changes),
{
    match authorization {
        None => false,
        Some(d) => {
            let allowed_name = "patchAllowedFields".to_owned();
            match d.get(&allowed_name) {
                Some(Value::Array(items)) => {
                    let mut i: usize = 0;
                    while i < changes.fields.len()
                        invariant
                            i <= changes.fields@.len(),
                            *authorization == Some(*d),
                            d@.contains_key(allowed_fields_name()),
                            d@[allowed_fields_name()] == Value::Array(*items),
                            forall|k: int|
                                0 <= k < i ==> lists_name(items@, #[trigger] changes.fields@[k].0@),
                        decreases changes.fields@.len() - i,
                    {
                        if !lists(items, &changes.fields[i].0) {
                            proof {
                                lemma_fields_map_domain(changes.fields@, changes.fields@[i as int].0@);
                                assert(changes@.contains_key(changes.fields@[i as int].0@));
                            }
                            return false;
                        }
                        i = i + 1;
                    }
                    proof {
                        assert forall|name: Seq<char>| #[trigger]
                            changes@.contains_key(name) implies lists_name(items@, name) by {
                            lemma_fields_map_domain(changes.fields@, name);
                        }
                    }
                    true
                },
                _ => false,
            }
        },
    }
}

/// The state of one patch request.
pub enum ConfigPatch {
    /// The authorization document was asked for.
    Authorizing { collection: String, id: String, changes: Document },
    /// The update was sent.
    Updating,
    /// A reply was given, or none will be.
    Finished,
}

impl ConfigPatch {
    /// The first step for `request`: look up the authorization document of
    /// its collection.
    pub open spec fn started(
        request: PatchConfigRequest,
        m: ConfigPatch,
        a: Action<PatchConfigResponse>,
    ) -> bool {
        &&& m == ConfigPatch::Authorizing {
            collection: request.collection,
            id: request.id,
            changes: request.changes,
        }
        &&& a matches Action::Call(StoreCall::FindOne { collection, id: Value::Str(s) })
        &&& collection == request.collection
        &&& s@ == authorization_id()
    }

    /// The step from state `self` on `event` to state `m` and action `a`.
    pub open spec fn next(
        self,
        event: StoreEvent,
        m: ConfigPatch,
        a: Action<PatchConfigResponse>,
    ) -> bool {
        match self {
            ConfigPatch::Authorizing { collection, id, changes } => match event {
                StoreEvent::Found(authorization) => if permits(authorization, changes) {
                    &&& m is Updating
                    &&& a == Action::<PatchConfigResponse>::Call(
                        StoreCall::SetFields { collection, id: Value::Str(id), changes },
                    )
                } else {
                    &&& m is Finished
                    &&& a == Action::<PatchConfigResponse>::Reply(PatchConfigResponse::Unauthorized)
                },
                _ => m is Finished && a is NoReply,
            },
            ConfigPatch::Updating => {
                &&& m is Finished
                &&& if event is Done {
                    a == Action::<PatchConfigResponse>::Reply(PatchConfigResponse::Updated)
                } else {
                    a is NoReply
                }
            },
            ConfigPatch::Finished => m is Finished && a is NoReply,
        }
    }

    /// Starts serving `request`.
    pub fn start(request: PatchConfigRequest) -> (r: (ConfigPatch, Action<PatchConfigResponse>))
        ensures
            ConfigPatch::started(request, r.0, r.1),
    {
        let call = StoreCall::FindOne {
            collection: request.collection.clone(),
            id: Value::Str("_authorization".to_owned()),
        };
        let m = ConfigPatch::Authorizing {
            collection: request.collection,
            id: request.id,
            changes: request.changes,
        };
        (m, Action::Call(call))
    }

    /// Takes the outcome of the last call and says what comes next.
    pub fn resume(self, event: StoreEvent) -> (r: (ConfigPatch, Action<PatchConfigResponse>))
        ensures
            self.next(event, r.0, r.1),
    {
        match self {
            ConfigPatch::Authorizing { collection, id, changes } => match event {
                StoreEvent::Found(authorization) => {
                    if is_patch_allowed(&authorization, &changes) {
                        (
                            ConfigPatch::Updating,
                            Action::Call(StoreCall::SetFields { collection, id: Value::Str(id), changes }),
                        )
                    } else {
                        (ConfigPatch::Finished, Action::Reply(PatchConfigResponse::Unauthorized))
                    }
                },
                _ => (ConfigPatch::Finished, Action::NoReply),
            },
            ConfigPatch::Updating => match event {
                StoreEvent::Done => (ConfigPatch::Finished, Action::Reply(PatchConfigResponse::Updated)),
                _ => (ConfigPatch::Finished, Action::NoReply),
            },
            ConfigPatch::Finished => (ConfigPatch::Finished, Action::NoReply),
        }
    }
}

/// A patch of some field that the authorization document does not list is
/// refused, and no update is sent for it then or later: the target document
/// stays as it was.
pub proof fn lemma_unlisted_field_refused(
    request: PatchConfigRequest,
    authorization: Option<Document>,
    m1: ConfigPatch,
    a1: Action<PatchConfigResponse>,
    m2: ConfigPatch,
    a2: Action<PatchConfigResponse>,
)
    requires
        ConfigPatch::started(request, m1, a1),
        !permits(authorization, request.changes),
        m1.next(StoreEvent::Found(authorization), m2, a2),
    ensures
        !(a1 matches Action::Call(StoreCall::SetFields { .. })),
        a2 == Action::<PatchConfigResponse>::Reply(PatchConfigResponse::Unauthorized),
        forall|event: StoreEvent, m3: ConfigPatch, a3: Action<PatchConfigResponse>|
            #[trigger] m2.next(event, m3, a3) ==> a3 is NoReply && m3 is Finished,
{
}

/// A patch of fields that the authorization document all lists sends one
/// update, of exactly the requested fields of the requested document, and is
/// answered `Updated` once that update completed; applied to any document, the
/// update sets the requested fields and leaves every other field as it was.
pub proof fn lemma_listed_fields_set(
    request: PatchConfigRequest,
    authorization: Option<Document>,
    target: Document,
    m1: ConfigPatch,
    a1: Action<PatchConfigResponse>,
    m2: ConfigPatch,
    a2: Action<PatchConfigResponse>,
    m3: ConfigPatch,
    a3: Action<PatchConfigResponse>,
)
    requires
        ConfigPatch::started(request, m1, a1),
        permits(authorization, request.changes),
        m1.next(StoreEvent::Found(authorization), m2, a2),
        m2.next(StoreEvent::Done, m3, a3),
    ensures
        a2 == Action::<PatchConfigResponse>::Call(
            StoreCall::SetFields {
                collection: request.collection,
                id: Value::Str(request.id),
                changes: request.changes,
            },
        ),
        a3 == Action::<PatchConfigResponse>::Reply(PatchConfigResponse::Updated),
        forall|name: Seq<char>| #[trigger]
            request.changes@.contains_key(name) ==> fields_after_set(
                target@,
                request.changes,
            ).contains_key(name) && fields_after_set(target@, request.changes)[name]
                == request.changes@[name],
        forall|name: Seq<char>|
            !request.changes@.contains_key(name) ==> (#[trigger] fields_after_set(
                target@,
                request.changes,
            ).contains_key(name) <==> target@.contains_key(name)) && (target@.contains_key(name)
                ==> fields_after_set(target@, request.changes)[name] == target@[name]),
{
}

} // verus!
