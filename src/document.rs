use vstd::prelude::*;
use bson::oid::ObjectId;

verus! {

/// The store's identifier type, carried through unread.
#[verifier::external_type_specification]
#[verifier::external_body]
pub struct ExObjectId(ObjectId);

/// One value of a raw store document, in the store's native kinds.
#[derive(Debug, PartialEq)]
pub enum Value {
    Null,
    Bool(bool),
    Int32(i32),
    Int64(i64),
    Text(String),
    /// Milliseconds since the Unix epoch, UTC.
    DateTime(i64),
    ObjectId(ObjectId),
    Array(Vec<Value>),
    Document(Document),
    /// Any other kind of value (a double, binary data, ...), which no field of the
    /// schema accepts.
    Other,
}

/// A named entry of a document.
#[derive(Debug, PartialEq)]
pub struct Field {
    pub key: String,
    pub value: Value,
}

/// A raw store document: its fields, in order.
#[derive(Debug, PartialEq)]
pub struct Document {
    pub fields: Vec<Field>,
}

/// The value of the first field named `key`, if any.
pub open spec fn lookup_in(fields: Seq<Field>, key: Seq<char>) -> Option<Value>
    decreases fields.len(),
{
    if fields.len() == 0 {
        None
    } else if fields[0].key@ == key {
        Some(fields[0].value)
    } else {
        lookup_in(fields.drop_first(), key)
    }
}

/// The value of the first field of `d` named `key`, if any.
pub open spec fn field_of(d: Document, key: Seq<char>) -> Option<Value> {
    lookup_in(d.fields@, key)
}

proof fn lemma_lookup_skip(fields: Seq<Field>, i: int, key: Seq<char>)
    requires
        0 <= i < fields.len(),
        fields[i].key@ != key,
    ensures
        lookup_in(fields.subrange(i, fields.len() as int), key) == lookup_in(
            fields.subrange(i + 1, fields.len() as int),
            key,
        ),
{
    assert(fields.subrange(i, fields.len() as int).drop_first() =~= fields.subrange(
        i + 1,
        fields.len() as int,
    ));
}

/// Whether `a` and `b` hold the same characters.
pub fn same_text(a: &String, b: &str) -> (r: bool)
    ensures
        r == (a@ == b@),
{
    let b_owned = b.to_string();
    *a == b_owned
}

/// Finds the first field of `d` named `key`.
pub fn lookup<'a>(d: &'a Document, key: &str) -> (r: Option<&'a Value>)
    ensures
        match r {
            Some(v) => field_of(*d, key@) == Some(*v),
            None => field_of(*d, key@) is None,
        },
{
    let n = d.fields.len();
    let mut i: usize = 0;
    assert(d.fields@.subrange(0, n as int) =~= d.fields@);
    while i < n
        invariant
            n == d.fields@.len(),
            i <= n,
            field_of(*d, key@) == lookup_in(d.fields@.subrange(i as int, n as int), key@),
        decreases n - i,
    {
        let f = &d.fields[i];
        if same_text(&f.key, key) {
            return Some(&f.value);
        }
        proof {
            lemma_lookup_skip(d.fields@, i as int, key@);
        }
        i = i + 1;
    }
    None
}

} // verus!
