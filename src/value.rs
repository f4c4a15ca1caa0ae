use vstd::prelude::*;

verus! {

/// A dynamically typed field value.
#[derive(Debug, PartialEq)]
pub enum Value {
    Null,
    Bool(bool),
    Int32(i32),
    Int64(i64),
    /// A double, held as its IEEE-754 bit pattern; the library never reads it.
    Double(u64),
    Str(String),
    /// An object identifier, held as its hexadecimal text.
    ObjectId(String),
    Array(Vec<Value>),
    Object(Document),
}

/// A document: named fields, in the order in which the store holds them.
#[derive(Debug, PartialEq)]
pub struct Document {
    pub fields: Vec<(String, Value)>,
}

/// The mapping from name to value that `fields` describes; where a name
/// occurs twice, the earlier field is the one that counts.
pub open spec fn fields_map(fields: Seq<(String, Value)>) -> Map<Seq<char>, Value>
    decreases fields.len(),
{
    if fields.len() == 0 {
        Map::empty()
    } else {
        fields_map(fields.drop_first()).insert(fields[0].0@, fields[0].1)
    }
}

/// No two fields share a name.
pub open spec fn distinct_names(fields: Seq<(String, Value)>) -> bool {
    forall|i: int, j: int|
        0 <= i < fields.len() && 0 <= j < fields.len() && i != j ==> fields[i].0@ != fields[j].0@
}

impl View for Document {
    type V = Map<Seq<char>, Value>;

    open spec fn view(&self) -> Map<Seq<char>, Value> {
        fields_map(self.fields@)
    }
}

/// The name of the field that makes a document an alias of another one.
pub open spec fn links_name() -> Seq<char> {
    "_links"@
}

/// Whether a value can name a document: a string or an object identifier.
pub open spec fn is_identifier(v: Value) -> bool {
    v is Str || v is ObjectId
}

/// The identifier that document `d` is an alias for, if any.
pub open spec fn link_of(d: Document) -> Option<Value> {
    if d@.contains_key(links_name()) && is_identifier(d@[links_name()]) {
        Some(d@[links_name()])
    } else {
        None
    }
}

/// The fields of a document whose fields were `target` after a field-level
/// set of `changes`: each field of `changes` takes its new value, and every
/// other field stays as it was.
pub open spec fn fields_after_set(target: Map<Seq<char>, Value>, changes: Document) -> Map<
    Seq<char>,
    Value,
> {
    target.union_prefer_right(changes@)
}

/// The text by which an identifier is reported.
pub open spec fn id_text(v: Value) -> Seq<char> {
    match v {
        Value::Str(s) => s@,
        Value::ObjectId(h) => h@,
        _ => Seq::empty(),
    }
}

/// A name is among the names of `fields` exactly when the mapping has it.
pub proof fn lemma_fields_map_domain(fields: Seq<(String, Value)>, name: Seq<char>)
    ensures
        fields_map(fields).contains_key(name) <==> exists|i: int|
            0 <= i < fields.len() && #[trigger] fields[i].0@ == name,
    decreases fields.len(),
{
    if fields.len() > 0 {
        lemma_fields_map_domain(fields.drop_first(), name);
        if fields_map(fields).contains_key(name) && fields[0].0@ != name {
            let i = choose|i: int| 0 <= i < fields.len() - 1 && #[trigger] fields.drop_first()[i].0@ == name;
            assert(fields[i + 1].0@ == name);
        }
        if exists|i: int| 0 <= i < fields.len() && #[trigger] fields[i].0@ == name {
            let i = choose|i: int| 0 <= i < fields.len() && #[trigger] fields[i].0@ == name;
            if i > 0 {
                assert(fields.drop_first()[i - 1].0@ == name);
            }
        }
    }
}

/// Appending a field whose name is new adds exactly that entry.
proof fn lemma_fields_map_push(fields: Seq<(String, Value)>, field: (String, Value))
    requires
        !fields_map(fields).contains_key(field.0@),
    ensures
        fields_map(fields.push(field)) == fields_map(fields).insert(field.0@, field.1),
    decreases fields.len(),
{
    if fields.len() == 0 {
        assert(fields.push(field).drop_first() =~= fields);
        assert(fields.push(field)[0] == field);
        assert(fields_map(fields.push(field)) =~= fields_map(fields).insert(field.0@, field.1));
    } else {
        let rest = fields.drop_first();
        assert(fields.push(field).drop_first() =~= rest.push(field));
        assert(fields.push(field)[0] == fields[0]);
        assert(fields[0].0@ != field.0@);
        lemma_fields_map_push(rest, field);
        assert(fields_map(fields.push(field)) =~= fields_map(fields).insert(field.0@, field.1));
    }
}

/// Replacing the value of the first field of a name changes only that entry.
proof fn lemma_fields_map_update(fields: Seq<(String, Value)>, i: int, name: String, value: Value)
    requires
        0 <= i < fields.len(),
        name@ == fields[i].0@,
        forall|j: int| 0 <= j < i ==> fields[j].0@ != fields[i].0@,
    ensures
        fields_map(fields.update(i, (name, value))) == fields_map(fields).insert(name@, value),
    decreases fields.len(),
{
    let updated = fields.update(i, (name, value));
    if i == 0 {
        assert(updated.drop_first() =~= fields.drop_first());
        assert(fields_map(updated) =~= fields_map(fields).insert(fields[i].0@, value));
    } else {
        let rest = fields.drop_first();
        assert(updated.drop_first() =~= rest.update(i - 1, (name, value)));
        lemma_fields_map_update(rest, i - 1, name, value);
        assert(fields_map(updated) =~= fields_map(fields).insert(fields[i].0@, value));
    }
}

impl Document {
    /// Whether the document is a mapping: no name occurs twice.
    pub open spec fn wf(&self) -> bool {
        distinct_names(self.fields@)
    }

    /// A document without fields.
    pub fn new() -> (d: Document)
        ensures
            d.fields@.len() == 0,
            d@ == Map::<Seq<char>, Value>::empty(),
    {
        Document { fields: Vec::new() }
    }

    /// The position of the first field called `name`.
    fn position(&self, name: &String) -> (r: Option<usize>)
        ensures
            match r {
                Some(i) => i < self.fields@.len() && self.fields@[i as int].0@ == name@
                    && forall|j: int| 0 <= j < i ==> self.fields@[j].0@ != name@,
                None => forall|j: int|
                    0 <= j < self.fields@.len() ==> self.fields@[j].0@ != name@,
            },
    {
        let mut i: usize = 0;
        while i < self.fields.len()
            invariant
                i <= self.fields@.len(),
                forall|j: int| 0 <= j < i ==> self.fields@[j].0@ != name@,
            decreases self.fields@.len() - i,
        {
            if self.fields[i].0 == *name {
                return Some(i);
            }
            i = i + 1;
        }
        None
    }

    /// The value of the field called `name`.
    pub fn get(&self, name: &String) -> (r: Option<&Value>)
        ensures
            match r {
                Some(v) => self@.contains_key(name@) && self@[name@] == *v,
                None => !self@.contains_key(name@),
            },
    {
        proof {
            lemma_fields_map_domain(self.fields@, name@);
        }
        match self.position(name) {
            Some(i) => {
                proof {
                    lemma_first_field_value(self.fields@, i as int);
                }
                Some(&self.fields[i].1)
            },
            None => None,
        }
    }

    /// Sets each field of `changes` on this document: a field already present
    /// takes the new value, a new one is appended, and every other field is
    /// kept as it was.
    pub fn set_fields(&mut self, changes: Document)
        requires
            changes.wf(),
        ensures
            final(self)@ == fields_after_set(old(self)@, changes),
            old(self).wf() ==> final(self).wf(),
    {
        let ghost start = self@;
        let ghost all = changes.fields@;
        for change in it: changes.fields
            invariant
                it.seq() == all,
                distinct_names(all),
                self@ == start.union_prefer_right(fields_map(all.take(it.index() as int))),
                old(self).wf() ==> self.wf(),
        {
            let ghost k = it.index() as int;
            proof {
                lemma_take_push_map(all, k);
            }
            let (name, value) = change;
            proof {
                lemma_fields_map_domain(self.fields@, name@);
            }
            match self.position(&name) {
                Some(i) => {
                    proof {
                        lemma_fields_map_update(self.fields@, i as int, name, value);
                    }
                    self.fields.set(i, (name, value));
                },
                None => {
                    proof {
                        lemma_fields_map_push(self.fields@, (name, value));
                    }
                    self.fields.push((name, value));
                },
            }
            assert(self@ =~= start.union_prefer_right(fields_map(all.take(k + 1))));
        }
        proof {
            assert(all.take(all.len() as int) =~= all);
        }
    }
}

/// The alias resolver: the identifier that document `d` is an alias for,
/// taken from its `_links` field when that holds a string or an object
/// identifier.
pub fn link_target(d: &Document) -> (r: Option<Value>)
    ensures
        r == link_of(*d),
{
    let name = "_links".to_owned();
    match d.get(&name) {
        Some(Value::Str(s)) => Some(Value::Str(s.clone())),
        Some(Value::ObjectId(h)) => Some(Value::ObjectId(h.clone())),
        _ => None,
    }
}

/// The text of an identifier, as messages report it.
pub fn id_string(v: &Value) -> (r: String)
    requires
        is_identifier(*v),
    ensures
        r@ == id_text(*v),
{
    match v {
        Value::Str(s) => s.clone(),
        Value::ObjectId(h) => h.clone(),
        _ => String::new(),
    }
}

/// The first field of a name gives the value that the mapping has for it.
proof fn lemma_first_field_value(fields: Seq<(String, Value)>, i: int)
    requires
        0 <= i < fields.len(),
        forall|j: int| 0 <= j < i ==> fields[j].0@ != fields[i].0@,
    ensures
        fields_map(fields).contains_key(fields[i].0@),
        fields_map(fields)[fields[i].0@] == fields[i].1,
    decreases fields.len(),
{
    if i > 0 {
        lemma_first_field_value(fields.drop_first(), i - 1);
    }
}

/// With distinct names, taking one more field adds exactly its entry.
proof fn lemma_take_push_map(all: Seq<(String, Value)>, k: int)
    requires
        0 <= k < all.len(),
        distinct_names(all),
    ensures
        fields_map(all.take(k + 1)) == fields_map(all.take(k)).insert(all[k].0@, all[k].1),
{
    assert(all.take(k + 1) =~= all.take(k).push(all[k]));
    lemma_fields_map_domain(all.take(k), all[k].0@);
    lemma_fields_map_push(all.take(k), all[k]);
}

} // verus!
