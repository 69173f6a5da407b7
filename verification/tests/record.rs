use hardware_info::record::{FieldValue, RawRecord};

#[test]
fn empty_record_has_no_field() {
    let r = RawRecord::new();
    assert!(r.get("Name").is_none());
}

#[test]
fn inserted_field_is_found() {
    let mut r = RawRecord::new();
    r.insert("Name", FieldValue::Text("Sample CPU".to_string()));
    r.insert("NumberOfCores", FieldValue::I4(8));
    assert!(matches!(r.get("Name"), Some(FieldValue::Text(s)) if s == "Sample CPU"));
    assert!(matches!(r.get("NumberOfCores"), Some(FieldValue::I4(8))));
    assert!(r.get("Caption").is_none());
}

#[test]
fn field_names_are_case_sensitive() {
    let mut r = RawRecord::new();
    r.insert("Name", FieldValue::UI8(3));
    assert!(r.get("name").is_none());
    assert!(r.get("Nam").is_none());
    assert!(r.get("Name ").is_none());
}

#[test]
fn later_insert_replaces_earlier() {
    let mut r = RawRecord::new();
    r.insert("Version", FieldValue::UI4(1));
    r.insert("Caption", FieldValue::Other);
    r.insert("Version", FieldValue::UI4(2));
    assert!(matches!(r.get("Version"), Some(FieldValue::UI4(2))));
    assert!(matches!(r.get("Caption"), Some(FieldValue::Other)));
}
