use records_and_tracking::config::firebase::{FieldMap, FirestoreValue};
use records_and_tracking::sync::mapper::{
    decode, encode, fits_table, from_wire, is_of_kind, read_version, reads_as_tombstone,
    to_document, to_wire, zero, ColumnKind, KeyMapping, Record, Scalar,
};
use records_and_tracking::sync::tables::{case_key_table, offender_key_table};

fn table() -> Vec<KeyMapping> {
    vec![
        KeyMapping { column: "full_name", key: "fullName", kind: ColumnKind::Text, required: true },
        KeyMapping { column: "alias", key: "alias", kind: ColumnKind::Text, required: false },
        KeyMapping { column: "first_offender", key: "firstOffender", kind: ColumnKind::Flag, required: false },
        KeyMapping { column: "count", key: "count", kind: ColumnKind::Integer, required: false },
        KeyMapping { column: "rank", key: "rank", kind: ColumnKind::Integer, required: true },
        KeyMapping { column: "seen", key: "seen", kind: ColumnKind::Flag, required: true },
    ]
}

fn text(s: &str) -> Option<Scalar> {
    Some(Scalar::Text(s.to_string()))
}

#[test]
fn encodes_scalars() {
    assert_eq!(encode(&Scalar::Text("x".to_string())), FirestoreValue::string("x"));
    assert_eq!(encode(&Scalar::Flag(true)), FirestoreValue::boolean(true));
    assert_eq!(
        encode(&Scalar::Integer(-15)),
        FirestoreValue::IntegerValue("-15".to_string())
    );
}

#[test]
fn decodes_scalars_of_the_right_type_only() {
    assert_eq!(decode(ColumnKind::Text, &FirestoreValue::string("x")), text("x"));
    assert_eq!(decode(ColumnKind::Text, &FirestoreValue::boolean(true)), None);
    assert_eq!(decode(ColumnKind::Text, &FirestoreValue::timestamp("t")), None);
    assert_eq!(decode(ColumnKind::Flag, &FirestoreValue::boolean(false)), Some(Scalar::Flag(false)));
    assert_eq!(decode(ColumnKind::Flag, &FirestoreValue::string("true")), None);
    assert_eq!(decode(ColumnKind::Integer, &FirestoreValue::integer(9)), Some(Scalar::Integer(9)));
    assert_eq!(decode(ColumnKind::Integer, &FirestoreValue::string("9")), None);
    assert_eq!(decode(ColumnKind::Integer, &FirestoreValue::IntegerValue("x".to_string())), None);
    assert_eq!(decode(ColumnKind::Integer, &FirestoreValue::null()), None);
    assert_eq!(decode(ColumnKind::Integer, &FirestoreValue::double(1.0f64.to_bits())), None);
}

#[test]
fn a_record_fits_by_length_types_and_required_columns() {
    let fitting = Record {
        values: vec![text("Jane"), None, None, Some(Scalar::Integer(1)), Some(Scalar::Integer(2)), Some(Scalar::Flag(true))],
    };
    assert!(fits_table(&table(), &fitting));
    let short = Record { values: vec![text("Jane")] };
    assert!(!fits_table(&table(), &short));
    let unnamed = Record {
        values: vec![None, None, None, None, Some(Scalar::Integer(2)), Some(Scalar::Flag(true))],
    };
    assert!(!fits_table(&table(), &unnamed));
    let mistyped = Record {
        values: vec![text("Jane"), Some(Scalar::Flag(true)), None, None, Some(Scalar::Integer(2)), Some(Scalar::Flag(true))],
    };
    assert!(!fits_table(&table(), &mistyped));
    assert!(fits_table(&vec![], &Record { values: vec![] }));
    assert!(is_of_kind(&Scalar::Flag(true), ColumnKind::Flag));
    assert!(!is_of_kind(&Scalar::Flag(true), ColumnKind::Text));
    assert!(is_of_kind(&Scalar::Integer(0), ColumnKind::Integer));
    assert!(is_of_kind(&Scalar::Text(String::new()), ColumnKind::Text));
}

#[test]
fn what_is_read_from_a_document_fits_its_table() {
    let mut fields = FieldMap::new();
    fields.insert("fullName".to_string(), FirestoreValue::integer(5));
    fields.insert("count".to_string(), FirestoreValue::boolean(true));
    let (record, _) = from_wire(&table(), &fields);
    assert!(fits_table(&table(), &record));
    let (empty, _) = from_wire(&table(), &FieldMap::new());
    assert!(fits_table(&table(), &empty));
}

#[test]
fn zero_values() {
    assert_eq!(zero(ColumnKind::Text), Scalar::Text(String::new()));
    assert_eq!(zero(ColumnKind::Flag), Scalar::Flag(false));
    assert_eq!(zero(ColumnKind::Integer), Scalar::Integer(0));
}

#[test]
fn null_columns_are_left_out() {
    let record = Record {
        values: vec![text("Jane Doe"), None, Some(Scalar::Flag(true)), None, Some(Scalar::Integer(3)), None],
    };
    let fields = to_wire(&table(), &record);
    assert_eq!(fields.entries().len(), 3);
    assert_eq!(fields.get("fullName"), Some(&FirestoreValue::string("Jane Doe")));
    assert_eq!(fields.get("firstOffender"), Some(&FirestoreValue::boolean(true)));
    assert_eq!(fields.get("rank"), Some(&FirestoreValue::IntegerValue("3".to_string())));
    assert!(fields.get("alias").is_none());
    assert!(fields.get("count").is_none());
    assert!(fields.get("seen").is_none());
}

#[test]
fn a_short_record_counts_as_null_from_its_end() {
    let record = Record { values: vec![text("Jane Doe")] };
    let fields = to_wire(&table(), &record);
    assert_eq!(fields.entries().len(), 1);
    assert_eq!(fields.get_str("fullName"), Some("Jane Doe"));
    let none = to_wire(&table(), &Record { values: vec![] });
    assert_eq!(none.entries().len(), 0);
}

#[test]
fn missing_keys_fall_back_to_zero_or_null() {
    let (record, errors) = from_wire(&table(), &FieldMap::new());
    assert_eq!(errors.len(), 0);
    assert_eq!(
        record.values,
        vec![text(""), None, None, None, Some(Scalar::Integer(0)), Some(Scalar::Flag(false))]
    );
}

#[test]
fn a_mismatched_key_fails_alone() {
    let mut fields = FieldMap::new();
    fields.insert("fullName".to_string(), FirestoreValue::integer(5));
    fields.insert("alias".to_string(), FirestoreValue::string("JD"));
    fields.insert("firstOffender".to_string(), FirestoreValue::string("yes"));
    fields.insert("count".to_string(), FirestoreValue::integer(12));
    fields.insert("rank".to_string(), FirestoreValue::IntegerValue("twelve".to_string()));
    fields.insert("seen".to_string(), FirestoreValue::boolean(true));
    let (record, errors) = from_wire(&table(), &fields);
    let keys: Vec<&str> = errors.iter().map(|e| e.key.as_str()).collect();
    assert_eq!(keys, vec!["fullName", "firstOffender", "rank"]);
    assert_eq!(
        record.values,
        vec![
            text(""),
            text("JD"),
            None,
            Some(Scalar::Integer(12)),
            Some(Scalar::Integer(0)),
            Some(Scalar::Flag(true)),
        ]
    );
}

#[test]
fn mapping_round_trip_on_a_full_record() {
    let record = Record {
        values: vec![
            text("Jane Doe"),
            None,
            Some(Scalar::Flag(false)),
            Some(Scalar::Integer(i64::MIN)),
            Some(Scalar::Integer(i64::MAX)),
            Some(Scalar::Flag(true)),
        ],
    };
    let (back, errors) = from_wire(&table(), &to_wire(&table(), &record));
    assert_eq!(errors.len(), 0);
    assert_eq!(back, record);
}

#[test]
fn document_carries_tenant_mark_version_and_stamp() {
    let record = Record { values: vec![text("Jane Doe")] };
    let fields = to_document(&table(), &record, "court-1", Some(false), Some(4), "2024-05-01T10:00:00+00:00");
    assert_eq!(fields.entries().len(), 5);
    assert_eq!(fields.get_str("fullName"), Some("Jane Doe"));
    assert_eq!(fields.get_str("courtId"), Some("court-1"));
    assert_eq!(fields.get_bool("isDeleted"), Some(false));
    assert_eq!(fields.get("version"), Some(&FirestoreValue::IntegerValue("4".to_string())));
    assert_eq!(
        fields.get("updatedAt"),
        Some(&FirestoreValue::timestamp("2024-05-01T10:00:00+00:00"))
    );

    let bare = to_document(&table(), &record, "court-1", None, None, "t");
    assert_eq!(bare.entries().len(), 3);
    assert!(bare.get("isDeleted").is_none());
    assert!(bare.get("version").is_none());
}

#[test]
fn reads_tombstones_and_versions() {
    let mut fields = FieldMap::new();
    assert!(!reads_as_tombstone(&fields));
    assert_eq!(read_version(&fields), 0);
    fields.insert("isDeleted".to_string(), FirestoreValue::boolean(true));
    fields.insert("version".to_string(), FirestoreValue::integer(7));
    assert!(reads_as_tombstone(&fields));
    assert_eq!(read_version(&fields), 7);
    fields.insert("isDeleted".to_string(), FirestoreValue::string("true"));
    fields.insert("version".to_string(), FirestoreValue::string("7"));
    assert!(!reads_as_tombstone(&fields));
    assert_eq!(read_version(&fields), 0);
    fields.insert("isDeleted".to_string(), FirestoreValue::boolean(false));
    assert!(!reads_as_tombstone(&fields));
}

#[test]
fn offender_table_maps_snake_case_to_camel_case() {
    let table = offender_key_table();
    assert_eq!(table.len(), 35);
    assert_eq!(table[0].column, "full_name");
    assert_eq!(table[0].key, "fullName");
    assert!(table[0].required);
    let find = |column: &str| table.iter().find(|line| line.column == column).unwrap();
    assert_eq!(find("first_offender").key, "firstOffender");
    assert_eq!(find("first_offender").kind, ColumnKind::Flag);
    assert_eq!(find("emergency_contact_relationship").key, "emergencyContactRelationship");
    assert_eq!(find("type").key, "type");
    assert_eq!(find("photo_storage_url").key, "photoStorageUrl");
    assert!(table.iter().filter(|line| line.required).count() == 1);
    assert!(table.iter().all(|line| line.kind != ColumnKind::Integer));
}

#[test]
fn case_table_maps_snake_case_to_camel_case() {
    let table = case_key_table();
    assert_eq!(table.len(), 26);
    let find = |column: &str| table.iter().find(|line| line.column == column).unwrap();
    assert_eq!(find("title").key, "title");
    assert!(find("title").required);
    assert!(find("status").required);
    assert!(find("priority").required);
    assert_eq!(find("case_type").key, "CaseType");
    assert_eq!(find("location_of_offence").key, "locationOfOffence");
    assert!(!find("case_number").required);
    assert!(table.iter().all(|line| line.kind == ColumnKind::Text));
}

#[test]
fn table_keys_are_distinct_and_not_reserved() {
    for table in [offender_key_table(), case_key_table()] {
        for (i, a) in table.iter().enumerate() {
            assert!(!["courtId", "isDeleted", "version", "updatedAt"].contains(&a.key));
            for b in table.iter().skip(i + 1) {
                assert_ne!(a.key, b.key);
                assert_ne!(a.column, b.column);
            }
        }
    }
}
