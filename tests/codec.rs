use bson::oid::ObjectId;
use reason_reload::codec::{
    decode, decode_vendor, encode, encode_vendor, DecodeErrorKind, Reason, ReasonVendor,
};
use reason_reload::default_is_enabled;
use reason_reload::document::{lookup, Document, Field, Value};

fn field(key: &str, value: Value) -> Field {
    Field { key: key.to_string(), value }
}

fn text(s: &str) -> Value {
    Value::Text(s.to_string())
}

fn vendor_doc(code: &str, tier: i32, enabled: Option<bool>) -> Document {
    let mut fields = vec![
        field("code", text(code)),
        field("tier", Value::Int32(tier)),
        field("category", text("airline")),
    ];
    if let Some(b) = enabled {
        fields.push(field("isEnabled", Value::Bool(b)));
    }
    Document { fields }
}

fn reason_doc(id: Option<ObjectId>, vendors: Vec<Document>, enabled: Option<bool>) -> Document {
    let mut fields = Vec::new();
    if let Some(o) = id {
        fields.push(field("_id", Value::ObjectId(o)));
    }
    fields.push(field("priority", text("HIGH")));
    fields.push(field("name", text("Flight cancelled")));
    fields.push(field("type", text("CANCELLATION")));
    fields.push(field("defaultRequiredDocument", text("BOARDING_PASS")));
    fields.push(field("vendor", Value::Array(vendors.into_iter().map(Value::Document).collect())));
    if let Some(b) = enabled {
        fields.push(field("isEnabled", Value::Bool(b)));
    }
    fields.push(field("updatedAt", Value::DateTime(1_700_000_000_123)));
    fields.push(field("_class", text("com.example.Reason")));
    Document { fields }
}

fn oid(n: u8) -> ObjectId {
    ObjectId::from_bytes([n; 12])
}

fn sample_reason(id: Option<ObjectId>) -> Reason {
    Reason {
        id,
        priority: "LOW".to_string(),
        name: "Delay".to_string(),
        reason_type: "DELAY".to_string(),
        default_required_document: "RECEIPT".to_string(),
        vendor: vec![
            ReasonVendor {
                code: "AA".to_string(),
                tier: 1,
                category: "airline".to_string(),
                is_enabled: false,
            },
            ReasonVendor {
                code: "BB".to_string(),
                tier: -7,
                category: "agency".to_string(),
                is_enabled: true,
            },
        ],
        is_enabled: false,
        updated_at: -42,
        class: "legacy.Reason".to_string(),
    }
}

#[test]
fn default_is_enabled_is_true() {
    assert!(default_is_enabled());
}

#[test]
fn decode_fills_missing_is_enabled() {
    let d = reason_doc(None, vec![vendor_doc("AA", 1, None), vendor_doc("BB", 2, Some(false))], None);
    let r = decode(&d).unwrap();
    assert!(r.is_enabled);
    assert!(r.vendor[0].is_enabled);
    assert!(!r.vendor[1].is_enabled);
}

#[test]
fn decode_keeps_explicit_flags() {
    let d = reason_doc(Some(oid(3)), vec![vendor_doc("AA", 1, Some(true))], Some(false));
    let r = decode(&d).unwrap();
    assert!(!r.is_enabled);
    assert!(r.vendor[0].is_enabled);
    assert_eq!(r.id, Some(oid(3)));
    assert_eq!(r.priority, "HIGH");
    assert_eq!(r.name, "Flight cancelled");
    assert_eq!(r.reason_type, "CANCELLATION");
    assert_eq!(r.default_required_document, "BOARDING_PASS");
    assert_eq!(r.updated_at, 1_700_000_000_123);
    assert_eq!(r.class, "com.example.Reason");
    assert_eq!(r.vendor[0].code, "AA");
    assert_eq!(r.vendor[0].tier, 1);
    assert_eq!(r.vendor[0].category, "airline");
}

#[test]
fn decode_null_id_is_absent() {
    let mut d = reason_doc(None, vec![], None);
    d.fields.push(field("_id", Value::Null));
    assert_eq!(decode(&d).unwrap().id, None);
}

#[test]
fn decode_ignores_unknown_fields() {
    let mut d = reason_doc(None, vec![], None);
    d.fields.push(field("extra", Value::Other));
    assert!(decode(&d).is_ok());
}

#[test]
fn round_trip_with_identifier() {
    let r = sample_reason(Some(oid(9)));
    let d = encode(&r);
    assert_eq!(d.fields.len(), 9);
    assert_eq!(d.fields[0].key, "_id");
    assert_eq!(decode(&d).unwrap(), r);
}

#[test]
fn round_trip_without_identifier_omits_it() {
    let r = sample_reason(None);
    let d = encode(&r);
    assert_eq!(d.fields.len(), 8);
    assert!(lookup(&d, "_id").is_none());
    assert_eq!(lookup(&d, "updatedAt"), Some(&Value::DateTime(-42)));
    assert_eq!(lookup(&d, "type"), Some(&text("DELAY")));
    assert_eq!(decode(&d).unwrap(), r);
}

#[test]
fn encode_vendor_writes_wire_names() {
    let v = ReasonVendor { code: "CC".to_string(), tier: 5, category: "x".to_string(), is_enabled: false };
    let d = encode_vendor(&v);
    let keys: Vec<&str> = d.fields.iter().map(|f| f.key.as_str()).collect();
    assert_eq!(keys, vec!["code", "tier", "category", "isEnabled"]);
    assert_eq!(d.fields[1].value, Value::Int32(5));
    assert_eq!(d.fields[3].value, Value::Bool(false));
    assert_eq!(decode_vendor(&d).unwrap(), v);
}

#[test]
fn decode_missing_required_field() {
    let mut d = reason_doc(None, vec![], None);
    d.fields.retain(|f| f.key != "name");
    let e = decode(&d).unwrap_err();
    assert_eq!(e.field, "name");
    assert_eq!(e.kind, DecodeErrorKind::Missing);
    assert_eq!(e.vendor_index, None);
}

#[test]
fn decode_missing_vendor_array() {
    let mut d = reason_doc(None, vec![], None);
    d.fields.retain(|f| f.key != "vendor");
    let e = decode(&d).unwrap_err();
    assert_eq!(e.field, "vendor");
    assert_eq!(e.kind, DecodeErrorKind::Missing);
}

#[test]
fn decode_wrong_type_field() {
    let mut d = reason_doc(None, vec![], None);
    d.fields[0].value = Value::Int32(1);
    let e = decode(&d).unwrap_err();
    assert_eq!(e.field, "priority");
    assert_eq!(e.kind, DecodeErrorKind::WrongType);
}

#[test]
fn decode_wrong_type_timestamp() {
    let mut d = reason_doc(None, vec![], None);
    for f in d.fields.iter_mut() {
        if f.key == "updatedAt" {
            f.value = Value::Int64(5);
        }
    }
    let e = decode(&d).unwrap_err();
    assert_eq!(e.field, "updatedAt");
    assert_eq!(e.kind, DecodeErrorKind::WrongType);
}

#[test]
fn decode_bad_vendor_entry_reports_index() {
    let mut bad = vendor_doc("BB", 2, None);
    bad.fields.remove(0);
    let d = reason_doc(None, vec![vendor_doc("AA", 1, None), bad], None);
    let e = decode(&d).unwrap_err();
    assert_eq!(e.field, "code");
    assert_eq!(e.kind, DecodeErrorKind::Missing);
    assert_eq!(e.vendor_index, Some(1));
}

#[test]
fn decode_vendor_entry_not_a_document() {
    let mut d = reason_doc(None, vec![vendor_doc("AA", 1, None)], None);
    for f in d.fields.iter_mut() {
        if let Value::Array(items) = &mut f.value {
            items.push(Value::Int32(3));
        }
    }
    let e = decode(&d).unwrap_err();
    assert_eq!(e.field, "vendor");
    assert_eq!(e.kind, DecodeErrorKind::WrongType);
    assert_eq!(e.vendor_index, Some(1));
}

#[test]
fn decode_tier_from_wide_integer() {
    let mut v = vendor_doc("AA", 0, None);
    v.fields[1].value = Value::Int64(-2_147_483_648);
    assert_eq!(decode_vendor(&v).unwrap().tier, i32::MIN);
    v.fields[1].value = Value::Int64(2_147_483_648);
    let e = decode_vendor(&v).unwrap_err();
    assert_eq!(e.field, "tier");
    assert_eq!(e.kind, DecodeErrorKind::WrongType);
}

#[test]
fn decode_vendor_flag_of_wrong_type() {
    let mut v = vendor_doc("AA", 0, None);
    v.fields.push(field("isEnabled", Value::Null));
    let e = decode_vendor(&v).unwrap_err();
    assert_eq!(e.field, "isEnabled");
    assert_eq!(e.kind, DecodeErrorKind::WrongType);
}

#[test]
fn lookup_takes_first_match() {
    let d = Document { fields: vec![field("a", Value::Int32(1)), field("a", Value::Int32(2))] };
    assert_eq!(lookup(&d, "a"), Some(&Value::Int32(1)));
    assert_eq!(lookup(&d, "b"), None);
}
