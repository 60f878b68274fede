use vstd::prelude::*;
use bson::oid::ObjectId;
use crate::document::{field_of, lookup, lookup_in, Document, Field, Value};

verus! {

/// Why a raw document could not be read as a record.
#[derive(Clone, Copy, Debug, PartialEq, Eq, Structural)]
pub enum DecodeErrorKind {
    /// A required field is absent.
    Missing,
    /// A field holds a value of the wrong kind.
    WrongType,
}

/// A failed decode: the field at fault, and the vendor entry it sits in, if any.
#[derive(Debug, PartialEq)]
pub struct DecodeError {
    pub field: String,
    pub kind: DecodeErrorKind,
    pub vendor_index: Option<usize>,
}

/// The mathematical form of a `DecodeError`.
pub struct DecodeFailure {
    pub field: Seq<char>,
    pub kind: DecodeErrorKind,
    pub vendor_index: Option<usize>,
}

impl View for DecodeError {
    type V = DecodeFailure;

    open spec fn view(&self) -> DecodeFailure {
        DecodeFailure { field: self.field@, kind: self.kind, vendor_index: self.vendor_index }
    }
}

/// A failure at a top-level field.
pub open spec fn failure(field: Seq<char>, kind: DecodeErrorKind) -> DecodeFailure {
    DecodeFailure { field, kind, vendor_index: None }
}

/// A vendor entry embedded in a reason.
#[derive(Debug, PartialEq)]
pub struct ReasonVendor {
    pub code: String,
    pub tier: i32,
    pub category: String,
    pub is_enabled: bool,
}

/// The mathematical form of a `ReasonVendor`.
pub struct VendorModel {
    pub code: Seq<char>,
    pub tier: i32,
    pub category: Seq<char>,
    pub is_enabled: bool,
}

impl View for ReasonVendor {
    type V = VendorModel;

    open spec fn view(&self) -> VendorModel {
        VendorModel {
            code: self.code@,
            tier: self.tier,
            category: self.category@,
            is_enabled: self.is_enabled,
        }
    }
}

/// A reason record. `updated_at` counts milliseconds since the Unix epoch, UTC.
#[derive(Debug, PartialEq)]
pub struct Reason {
    pub id: Option<ObjectId>,
    pub priority: String,
    pub name: String,
    pub reason_type: String,
    pub default_required_document: String,
    pub vendor: Vec<ReasonVendor>,
    pub is_enabled: bool,
    pub updated_at: i64,
    pub class: String,
}

/// The mathematical form of a `Reason`.
pub struct ReasonModel {
    pub id: Option<ObjectId>,
    pub priority: Seq<char>,
    pub name: Seq<char>,
    pub reason_type: Seq<char>,
    pub default_required_document: Seq<char>,
    pub vendor: Seq<VendorModel>,
    pub is_enabled: bool,
    pub updated_at: i64,
    pub class: Seq<char>,
}

impl View for Reason {
    type V = ReasonModel;

    open spec fn view(&self) -> ReasonModel {
        ReasonModel {
            id: self.id,
            priority: self.priority@,
            name: self.name@,
            reason_type: self.reason_type@,
            default_required_document: self.default_required_document@,
            vendor: self.vendor@.map_values(|v: ReasonVendor| v@),
            is_enabled: self.is_enabled,
            updated_at: self.updated_at,
            class: self.class@,
        }
    }
}

/// A required string field.
pub open spec fn text_spec(v: Option<Value>, key: Seq<char>) -> Result<Seq<char>, DecodeFailure> {
    match v {
        None => Err(failure(key, DecodeErrorKind::Missing)),
        Some(Value::Text(s)) => Ok(s@),
        Some(_) => Err(failure(key, DecodeErrorKind::WrongType)),
    }
}

/// A flag that is `true` when absent.
pub open spec fn flag_spec(v: Option<Value>, key: Seq<char>) -> Result<bool, DecodeFailure> {
    match v {
        None => Ok(true),
        Some(Value::Bool(b)) => Ok(b),
        Some(_) => Err(failure(key, DecodeErrorKind::WrongType)),
    }
}

/// A required 32-bit integer; a 64-bit one is taken when it fits.
pub open spec fn tier_spec(v: Option<Value>, key: Seq<char>) -> Result<i32, DecodeFailure> {
    match v {
        None => Err(failure(key, DecodeErrorKind::Missing)),
        Some(Value::Int32(t)) => Ok(t),
        Some(Value::Int64(t)) => if i32::MIN <= t <= i32::MAX {
            Ok(t as i32)
        } else {
            Err(failure(key, DecodeErrorKind::WrongType))
        },
        Some(_) => Err(failure(key, DecodeErrorKind::WrongType)),
    }
}

/// A required timestamp.
pub open spec fn time_spec(v: Option<Value>, key: Seq<char>) -> Result<i64, DecodeFailure> {
    match v {
        None => Err(failure(key, DecodeErrorKind::Missing)),
        Some(Value::DateTime(ms)) => Ok(ms),
        Some(_) => Err(failure(key, DecodeErrorKind::WrongType)),
    }
}

/// The optional identifier: absent or null reads as no identifier.
pub open spec fn id_spec(v: Option<Value>, key: Seq<char>) -> Result<Option<ObjectId>, DecodeFailure> {
    match v {
        None => Ok(None),
        Some(Value::Null) => Ok(None),
        Some(Value::ObjectId(o)) => Ok(Some(o)),
        Some(_) => Err(failure(key, DecodeErrorKind::WrongType)),
    }
}

fn fail(key: &str, kind: DecodeErrorKind) -> (e: DecodeError)
    ensures
        e@ == failure(key@, kind),
{
    DecodeError { field: key.to_string(), kind, vendor_index: None }
}

fn read_text(d: &Document, key: &str) -> (r: Result<String, DecodeError>)
    ensures
        match r {
            Ok(s) => text_spec(field_of(*d, key@), key@) == Ok::<Seq<char>, DecodeFailure>(s@),
            Err(e) => text_spec(field_of(*d, key@), key@) == Err::<Seq<char>, DecodeFailure>(e@),
        },
{
    match lookup(d, key) {
        None => Err(fail(key, DecodeErrorKind::Missing)),
        Some(Value::Text(s)) => Ok(s.clone()),
        Some(_) => Err(fail(key, DecodeErrorKind::WrongType)),
    }
}

fn read_flag(d: &Document, key: &str) -> (r: Result<bool, DecodeError>)
    ensures
        match r {
            Ok(b) => flag_spec(field_of(*d, key@), key@) == Ok::<bool, DecodeFailure>(b),
            Err(e) => flag_spec(field_of(*d, key@), key@) == Err::<bool, DecodeFailure>(e@),
        },
{
    match lookup(d, key) {
        None => Ok(default_flag()),
        Some(Value::Bool(b)) => Ok(*b),
        Some(_) => Err(fail(key, DecodeErrorKind::WrongType)),
    }
}

fn default_flag() -> (r: bool)
    ensures
        r == true,
{
    crate::default_is_enabled()
}

fn read_tier(d: &Document, key: &str) -> (r: Result<i32, DecodeError>)
    ensures
        match r {
            Ok(t) => tier_spec(field_of(*d, key@), key@) == Ok::<i32, DecodeFailure>(t),
            Err(e) => tier_spec(field_of(*d, key@), key@) == Err::<i32, DecodeFailure>(e@),
        },
{
    match lookup(d, key) {
        None => Err(fail(key, DecodeErrorKind::Missing)),
        Some(Value::Int32(t)) => Ok(*t),
        Some(Value::Int64(t)) => {
            if i32::MIN as i64 <= *t && *t <= i32::MAX as i64 {
                Ok(*t as i32)
            } else {
                Err(fail(key, DecodeErrorKind::WrongType))
            }
        },
        Some(_) => Err(fail(key, DecodeErrorKind::WrongType)),
    }
}

fn read_time(d: &Document, key: &str) -> (r: Result<i64, DecodeError>)
    ensures
        match r {
            Ok(t) => time_spec(field_of(*d, key@), key@) == Ok::<i64, DecodeFailure>(t),
            Err(e) => time_spec(field_of(*d, key@), key@) == Err::<i64, DecodeFailure>(e@),
        },
{
    match lookup(d, key) {
        None => Err(fail(key, DecodeErrorKind::Missing)),
        Some(Value::DateTime(ms)) => Ok(*ms),
        Some(_) => Err(fail(key, DecodeErrorKind::WrongType)),
    }
}

fn read_id(d: &Document, key: &str) -> (r: Result<Option<ObjectId>, DecodeError>)
    ensures
        match r {
            Ok(o) => id_spec(field_of(*d, key@), key@) == Ok::<Option<ObjectId>, DecodeFailure>(o),
            Err(e) => id_spec(field_of(*d, key@), key@) == Err::<Option<ObjectId>, DecodeFailure>(
                e@,
            ),
        },
{
    match lookup(d, key) {
        None => Ok(None),
        Some(Value::Null) => Ok(None),
        Some(Value::ObjectId(o)) => Ok(Some(*o)),
        Some(_) => Err(fail(key, DecodeErrorKind::WrongType)),
    }
}


/// The vendor entry that a document reads as.
pub open spec fn vendor_spec(d: Document) -> Result<VendorModel, DecodeFailure> {
    let code = text_spec(field_of(d, "code"@), "code"@);
    let tier = tier_spec(field_of(d, "tier"@), "tier"@);
    let category = text_spec(field_of(d, "category"@), "category"@);
    let enabled = flag_spec(field_of(d, "isEnabled"@), "isEnabled"@);
    if code is Err {
        Err(code->Err_0)
    } else if tier is Err {
        Err(tier->Err_0)
    } else if category is Err {
        Err(category->Err_0)
    } else if enabled is Err {
        Err(enabled->Err_0)
    } else {
        Ok(
            VendorModel {
                code: code->Ok_0,
                tier: tier->Ok_0,
                category: category->Ok_0,
                is_enabled: enabled->Ok_0,
            },
        )
    }
}

/// `e`, placed in vendor entry `i`.
pub open spec fn at_vendor(e: DecodeFailure, i: int) -> DecodeFailure {
    DecodeFailure { field: e.field, kind: e.kind, vendor_index: Some(i as usize) }
}

/// Entry `i` of the `vendor` array.
pub open spec fn vendor_item_spec(v: Value, i: int) -> Result<VendorModel, DecodeFailure> {
    match v {
        Value::Document(d) => match vendor_spec(d) {
            Ok(m) => Ok(m),
            Err(e) => Err(at_vendor(e, i)),
        },
        _ => Err(at_vendor(failure("vendor"@, DecodeErrorKind::WrongType), i)),
    }
}

/// The entries of the `vendor` array, or the failure of the first entry that fails.
pub open spec fn vendors_spec(items: Seq<Value>) -> Result<Seq<VendorModel>, DecodeFailure>
    decreases items.len(),
{
    if items.len() == 0 {
        Ok(Seq::empty())
    } else {
        match vendors_spec(items.drop_last()) {
            Err(e) => Err(e),
            Ok(vs) => match vendor_item_spec(items.last(), items.len() - 1) {
                Ok(v) => Ok(vs.push(v)),
                Err(e) => Err(e),
            },
        }
    }
}

/// The `vendor` field: an array whose entries all decode.
pub open spec fn vendor_field_spec(v: Option<Value>) -> Result<Seq<VendorModel>, DecodeFailure> {
    match v {
        None => Err(failure("vendor"@, DecodeErrorKind::Missing)),
        Some(Value::Array(items)) => vendors_spec(items@),
        Some(_) => Err(failure("vendor"@, DecodeErrorKind::WrongType)),
    }
}

/// The record that a raw document reads as, or the first failure in schema order.
pub open spec fn decode_spec(d: Document) -> Result<ReasonModel, DecodeFailure> {
    let id = id_spec(field_of(d, "_id"@), "_id"@);
    let priority = text_spec(field_of(d, "priority"@), "priority"@);
    let name = text_spec(field_of(d, "name"@), "name"@);
    let reason_type = text_spec(field_of(d, "type"@), "type"@);
    let required = text_spec(
        field_of(d, "defaultRequiredDocument"@),
        "defaultRequiredDocument"@,
    );
    let vendor = vendor_field_spec(field_of(d, "vendor"@));
    let enabled = flag_spec(field_of(d, "isEnabled"@), "isEnabled"@);
    let updated = time_spec(field_of(d, "updatedAt"@), "updatedAt"@);
    let class = text_spec(field_of(d, "_class"@), "_class"@);
    if id is Err {
        Err(id->Err_0)
    } else if priority is Err {
        Err(priority->Err_0)
    } else if name is Err {
        Err(name->Err_0)
    } else if reason_type is Err {
        Err(reason_type->Err_0)
    } else if required is Err {
        Err(required->Err_0)
    } else if vendor is Err {
        Err(vendor->Err_0)
    } else if enabled is Err {
        Err(enabled->Err_0)
    } else if updated is Err {
        Err(updated->Err_0)
    } else if class is Err {
        Err(class->Err_0)
    } else {
        Ok(
            ReasonModel {
                id: id->Ok_0,
                priority: priority->Ok_0,
                name: name->Ok_0,
                reason_type: reason_type->Ok_0,
                default_required_document: required->Ok_0,
                vendor: vendor->Ok_0,
                is_enabled: enabled->Ok_0,
                updated_at: updated->Ok_0,
                class: class->Ok_0,
            },
        )
    }
}

/// Reads one vendor entry from its document.
pub fn decode_vendor(d: &Document) -> (r: Result<ReasonVendor, DecodeError>)
    ensures
        match r {
            Ok(v) => vendor_spec(*d) == Ok::<VendorModel, DecodeFailure>(v@),
            Err(e) => vendor_spec(*d) == Err::<VendorModel, DecodeFailure>(e@),
        },
{
    let code = read_text(d, "code")?;
    let tier = read_tier(d, "tier")?;
    let category = read_text(d, "category")?;
    let is_enabled = read_flag(d, "isEnabled")?;
    Ok(ReasonVendor { code, tier, category, is_enabled })
}


fn decode_vendor_item(v: &Value, i: usize) -> (r: Result<ReasonVendor, DecodeError>)
    ensures
        match r {
            Ok(m) => vendor_item_spec(*v, i as int) == Ok::<VendorModel, DecodeFailure>(m@),
            Err(e) => vendor_item_spec(*v, i as int) == Err::<VendorModel, DecodeFailure>(e@),
        },
{
    match v {
        Value::Document(d) => match decode_vendor(d) {
            Ok(m) => Ok(m),
            Err(e) => Err(DecodeError { field: e.field, kind: e.kind, vendor_index: Some(i) }),
        },
        _ => {
            let e = fail("vendor", DecodeErrorKind::WrongType);
            Err(DecodeError { field: e.field, kind: e.kind, vendor_index: Some(i) })
        },
    }
}

fn decode_vendors(v: &Value) -> (r: Result<Vec<ReasonVendor>, DecodeError>)
    ensures
        match r {
            Ok(vs) => vendor_field_spec(Some(*v)) == Ok::<Seq<VendorModel>, DecodeFailure>(
                vs@.map_values(|x: ReasonVendor| x@),
            ),
            Err(e) => vendor_field_spec(Some(*v)) == Err::<Seq<VendorModel>, DecodeFailure>(e@),
        },
{
    match v {
        Value::Array(items) => {
            let n = items.len();
            let mut out: Vec<ReasonVendor> = Vec::new();
            let mut i: usize = 0;
            assert(items@.subrange(0, 0) =~= Seq::<Value>::empty());
            assert(out@.map_values(|x: ReasonVendor| x@) =~= Seq::<VendorModel>::empty());
            while i < n
                invariant
                    n == items@.len(),
                    i <= n,
                    vendor_field_spec(Some(*v)) == vendors_spec(items@),
                    vendors_spec(items@.subrange(0, i as int)) == Ok::<
                        Seq<VendorModel>,
                        DecodeFailure,
                    >(out@.map_values(|x: ReasonVendor| x@)),
                decreases n - i,
            {
                let ghost prev = out@;
                let item = decode_vendor_item(&items[i], i);
                assert(items@.subrange(0, i + 1).drop_last() =~= items@.subrange(0, i as int));
                match item {
                    Ok(m) => {
                        out.push(m);
                        assert(out@.map_values(|x: ReasonVendor| x@) =~= prev.map_values(
                            |x: ReasonVendor| x@,
                        ).push(m@));
                    },
                    Err(e) => {
                        proof {
                            assert(vendors_spec(items@.subrange(0, i + 1)) == Err::<
                                Seq<VendorModel>,
                                DecodeFailure,
                            >(e@));
                            lemma_vendors_fail(items@, i as int, n as int);
                            assert(items@.subrange(0, n as int) =~= items@);
                        }
                        return Err(e);
                    },
                }
                i = i + 1;
            }
            assert(items@.subrange(0, n as int) =~= items@);
            Ok(out)
        },
        _ => Err(fail("vendor", DecodeErrorKind::WrongType)),
    }
}

proof fn lemma_vendors_fail(items: Seq<Value>, i: int, j: int)
    requires
        0 <= i < j <= items.len(),
        vendors_spec(items.subrange(0, i + 1)) is Err,
    ensures
        vendors_spec(items.subrange(0, j)) == vendors_spec(items.subrange(0, i + 1)),
    decreases j - i,
{
    if j > i + 1 {
        lemma_vendors_fail(items, i, j - 1);
        assert(items.subrange(0, j).drop_last() =~= items.subrange(0, j - 1));
    }
}

/// Reads a record from a raw document, filling `isEnabled` with `true` where it is
/// absent, at the top level and in each vendor entry.
pub fn decode(d: &Document) -> (r: Result<Reason, DecodeError>)
    ensures
        match r {
            Ok(m) => decode_spec(*d) == Ok::<ReasonModel, DecodeFailure>(m@),
            Err(e) => decode_spec(*d) == Err::<ReasonModel, DecodeFailure>(e@),
        },
{
    let id = read_id(d, "_id")?;
    let priority = read_text(d, "priority")?;
    let name = read_text(d, "name")?;
    let reason_type = read_text(d, "type")?;
    let default_required_document = read_text(d, "defaultRequiredDocument")?;
    let vendor = match lookup(d, "vendor") {
        None => {
            return Err(fail("vendor", DecodeErrorKind::Missing));
        },
        Some(v) => decode_vendors(v)?,
    };
    let is_enabled = read_flag(d, "isEnabled")?;
    let updated_at = read_time(d, "updatedAt")?;
    let class = read_text(d, "_class")?;
    Ok(
        Reason {
            id,
            priority,
            name,
            reason_type,
            default_required_document,
            vendor,
            is_enabled,
            updated_at,
            class,
        },
    )
}


/// `f` is the field `key` holding the string `s`.
pub open spec fn text_at(f: Field, key: Seq<char>, s: Seq<char>) -> bool {
    f.key@ == key && f.value is Text && f.value->Text_0@ == s
}

/// `f` is the field `key` holding `v`.
pub open spec fn value_at(f: Field, key: Seq<char>, v: Value) -> bool {
    f.key@ == key && f.value == v
}

/// `d` is the stored form of the vendor entry `m`.
pub open spec fn vendor_encodes(d: Document, m: VendorModel) -> bool {
    let f = d.fields@;
    &&& f.len() == 4
    &&& text_at(f[0], "code"@, m.code)
    &&& value_at(f[1], "tier"@, Value::Int32(m.tier))
    &&& text_at(f[2], "category"@, m.category)
    &&& value_at(f[3], "isEnabled"@, Value::Bool(m.is_enabled))
}

/// `items` is the stored form of the vendor entries `ms`, in order.
pub open spec fn vendors_encode(items: Seq<Value>, ms: Seq<VendorModel>) -> bool {
    &&& items.len() == ms.len()
    &&& forall|i: int|
        0 <= i < items.len() ==> #[trigger] items[i] is Document && vendor_encodes(
            items[i]->Document_0,
            ms[i],
        )
}

/// `d` is the stored form of the record `m`: the identifier first when there is
/// one, and no `_id` field at all when there is none.
pub open spec fn reason_encodes(d: Document, m: ReasonModel) -> bool {
    let f = d.fields@;
    let k: int = if m.id is Some {
        1
    } else {
        0
    };
    &&& f.len() == k + 8
    &&& m.id is Some ==> value_at(f[0], "_id"@, Value::ObjectId(m.id->Some_0))
    &&& text_at(f[k], "priority"@, m.priority)
    &&& text_at(f[k + 1], "name"@, m.name)
    &&& text_at(f[k + 2], "type"@, m.reason_type)
    &&& text_at(f[k + 3], "defaultRequiredDocument"@, m.default_required_document)
    &&& f[k + 4].key@ == "vendor"@
    &&& f[k + 4].value is Array
    &&& vendors_encode(f[k + 4].value->Array_0@, m.vendor)
    &&& value_at(f[k + 5], "isEnabled"@, Value::Bool(m.is_enabled))
    &&& value_at(f[k + 6], "updatedAt"@, Value::DateTime(m.updated_at))
    &&& text_at(f[k + 7], "_class"@, m.class)
}

fn text_field(key: &str, s: &String) -> (f: Field)
    ensures
        text_at(f, key@, s@),
{
    Field { key: key.to_string(), value: Value::Text(s.clone()) }
}

fn value_field(key: &str, value: Value) -> (f: Field)
    ensures
        value_at(f, key@, value),
{
    Field { key: key.to_string(), value }
}

/// The stored form of a vendor entry.
pub fn encode_vendor(v: &ReasonVendor) -> (d: Document)
    ensures
        vendor_encodes(d, v@),
{
    let mut fields: Vec<Field> = Vec::new();
    fields.push(text_field("code", &v.code));
    fields.push(value_field("tier", Value::Int32(v.tier)));
    fields.push(text_field("category", &v.category));
    fields.push(value_field("isEnabled", Value::Bool(v.is_enabled)));
    Document { fields }
}

fn encode_vendors(vs: &Vec<ReasonVendor>) -> (items: Vec<Value>)
    ensures
        vendors_encode(items@, vs@.map_values(|x: ReasonVendor| x@)),
{
    let n = vs.len();
    let mut items: Vec<Value> = Vec::new();
    let mut i: usize = 0;
    while i < n
        invariant
            n == vs@.len(),
            i <= n,
            vendors_encode(items@, vs@.map_values(|x: ReasonVendor| x@).subrange(0, i as int)),
        decreases n - i,
    {
        let d = encode_vendor(&vs[i]);
        items.push(Value::Document(d));
        i = i + 1;
    }
    assert(vs@.map_values(|x: ReasonVendor| x@).subrange(0, n as int) =~= vs@.map_values(
        |x: ReasonVendor| x@,
    ));
    items
}

/// The stored form of a record. An absent identifier is left out, so that the
/// store assigns one.
pub fn encode(r: &Reason) -> (d: Document)
    ensures
        reason_encodes(d, r@),
{
    let mut fields: Vec<Field> = Vec::new();
    if let Some(id) = r.id {
        fields.push(value_field("_id", Value::ObjectId(id)));
    }
    fields.push(text_field("priority", &r.priority));
    fields.push(text_field("name", &r.name));
    fields.push(text_field("type", &r.reason_type));
    fields.push(text_field("defaultRequiredDocument", &r.default_required_document));
    fields.push(value_field("vendor", Value::Array(encode_vendors(&r.vendor))));
    fields.push(value_field("isEnabled", Value::Bool(r.is_enabled)));
    fields.push(value_field("updatedAt", Value::DateTime(r.updated_at)));
    fields.push(text_field("_class", &r.class));
    Document { fields }
}


proof fn lemma_vendor_round_trip(d: Document, m: VendorModel)
    requires
        vendor_encodes(d, m),
    ensures
        vendor_spec(d) == Ok::<VendorModel, DecodeFailure>(m),
{
    reveal_strlit("code");
    reveal_strlit("tier");
    reveal_strlit("category");
    reveal_strlit("isEnabled");
    reveal_with_fuel(lookup_in, 5);
    let f = d.fields@;
    assert(f.drop_first()[0] == f[1]);
    assert(f.drop_first().drop_first()[0] == f[2]);
    assert(f.drop_first().drop_first().drop_first()[0] == f[3]);
    assert("code"@[0] != "tier"@[0] && "code"@[0] != "isEnabled"@[0]);
    assert("code"@.len() != "category"@.len());
    assert("tier"@[0] != "category"@[0] && "tier"@[0] != "isEnabled"@[0]);
    assert("category"@[0] != "isEnabled"@[0]);
}

proof fn lemma_vendors_round_trip(items: Seq<Value>, ms: Seq<VendorModel>)
    requires
        vendors_encode(items, ms),
    ensures
        vendors_spec(items) == Ok::<Seq<VendorModel>, DecodeFailure>(ms),
    decreases items.len(),
{
    if items.len() > 0 {
        let n = items.len() - 1;
        assert(vendors_encode(items.drop_last(), ms.drop_last())) by {
            assert forall|i: int| 0 <= i < n implies #[trigger] items.drop_last()[i] is Document
                && vendor_encodes(items.drop_last()[i]->Document_0, ms.drop_last()[i]) by {
                assert(items[i] is Document);
            }
        }
        lemma_vendors_round_trip(items.drop_last(), ms.drop_last());
        assert(items[n] is Document);
        lemma_vendor_round_trip(items[n]->Document_0, ms[n]);
        assert(ms.drop_last().push(ms[n]) =~= ms);
    } else {
        assert(ms =~= Seq::<VendorModel>::empty());
    }
}

/// Decoding the stored form of a record gives that record back.
pub proof fn lemma_round_trip(r: Reason, d: Document)
    requires
        reason_encodes(d, r@),
    ensures
        decode_spec(d) == Ok::<ReasonModel, DecodeFailure>(r@),
{
    reveal_strlit("_id");
    reveal_strlit("priority");
    reveal_strlit("name");
    reveal_strlit("type");
    reveal_strlit("defaultRequiredDocument");
    reveal_strlit("vendor");
    reveal_strlit("isEnabled");
    reveal_strlit("updatedAt");
    reveal_strlit("_class");
    reveal_with_fuel(lookup_in, 10);
    assert("_id"@.len() != "_class"@.len());
    assert("_id"@[0] == '_' && "priority"@[0] == 'p' && "name"@[0] == 'n' && "type"@[0] == 't');
    assert("defaultRequiredDocument"@[0] == 'd' && "vendor"@[0] == 'v' && "isEnabled"@[0] == 'i');
    assert("updatedAt"@[0] == 'u' && "_class"@[0] == '_');
    let m = r@;
    let f = d.fields@;
    let k: int = if m.id is Some {
        1
    } else {
        0
    };
    let g = f.subrange(k, f.len() as int);
    assert(lookup_in(f, "_id"@) == if m.id is Some {
        Some(Value::ObjectId(m.id->Some_0))
    } else {
        lookup_in(g, "_id"@)
    }) by {
        if m.id is Some {
        } else {
            assert(g =~= f);
        }
    }
    assert forall|key: Seq<char>| key != "_id"@ implies lookup_in(f, key) == lookup_in(g, key) by {
        if m.id is Some {
            assert(f.drop_first() =~= g);
        } else {
            assert(g =~= f);
        }
    }
    assert(g.drop_first()[0] == f[k + 1]);
    assert(g.drop_first().drop_first()[0] == f[k + 2]);
    assert(g.drop_first().drop_first().drop_first()[0] == f[k + 3]);
    assert(g.drop_first().drop_first().drop_first().drop_first()[0] == f[k + 4]);
    assert(g.drop_first().drop_first().drop_first().drop_first().drop_first()[0] == f[k + 5]);
    assert(g.drop_first().drop_first().drop_first().drop_first().drop_first().drop_first()[0]
        == f[k + 6]);
    assert(g.drop_first().drop_first().drop_first().drop_first().drop_first().drop_first().drop_first()[0]
        == f[k + 7]);
    lemma_vendors_round_trip(f[k + 4].value->Array_0@, m.vendor);
}


proof fn lemma_vendors_items(items: Seq<Value>, i: int)
    requires
        vendors_spec(items) is Ok,
        0 <= i < items.len(),
    ensures
        vendors_spec(items)->Ok_0.len() == items.len(),
        vendor_item_spec(items[i], i) == Ok::<VendorModel, DecodeFailure>(
            vendors_spec(items)->Ok_0[i],
        ),
    decreases items.len(),
{
    let n = items.len() - 1;
    let pre = items.drop_last();
    assert(vendors_spec(pre) is Ok);
    if n > 0 {
        lemma_vendors_items(pre, 0);
    } else {
        assert(vendors_spec(pre) == Ok::<Seq<VendorModel>, DecodeFailure>(Seq::empty()));
    }
    assert(vendors_spec(items)->Ok_0 == vendors_spec(pre)->Ok_0.push(
        vendor_item_spec(items[n], n)->Ok_0,
    ));
    if i < n {
        lemma_vendors_items(pre, i);
        assert(pre[i] == items[i]);
    }
}

/// A record read from a document without `isEnabled` is enabled, and so is each of its
/// vendor entries whose document has no `isEnabled`.
pub proof fn lemma_default_applied(d: Document)
    requires
        decode_spec(d) is Ok,
    ensures
        field_of(d, "isEnabled"@) is None ==> decode_spec(d)->Ok_0.is_enabled,
        field_of(d, "vendor"@) is Some && field_of(d, "vendor"@)->Some_0 is Array,
        forall|i: int|
            #![trigger field_of(d, "vendor"@)->Some_0->Array_0@[i]]
            0 <= i < field_of(d, "vendor"@)->Some_0->Array_0@.len()
                && field_of(d, "vendor"@)->Some_0->Array_0@[i] is Document && field_of(
                field_of(d, "vendor"@)->Some_0->Array_0@[i]->Document_0,
                "isEnabled"@,
            ) is None ==> decode_spec(d)->Ok_0.vendor[i].is_enabled,
{
    let items = field_of(d, "vendor"@)->Some_0->Array_0@;
    assert forall|i: int|
        #![trigger items[i]]
        0 <= i < items.len() && items[i] is Document && field_of(
            items[i]->Document_0,
            "isEnabled"@,
        ) is None implies decode_spec(d)->Ok_0.vendor[i].is_enabled by {
        lemma_vendors_items(items, i);
    }
}

} // verus!
