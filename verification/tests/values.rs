use records_and_tracking::config::firebase::{
    classify, classify_delete, collect_documents, extract_document_id, FieldMap, Filter,
    FirestoreClient, FirestoreDocument, FirestoreValue, HttpMethod, HttpOutcome, MapValue,
    OrderBy, RemoteError, RunQueryResponseItem,
};

fn document(name: &str) -> FirestoreDocument {
    FirestoreDocument {
        name: name.to_string(),
        fields: FieldMap::new(),
        create_time: None,
        update_time: None,
    }
}

#[test]
fn builds_each_kind_of_value() {
    assert_eq!(FirestoreValue::string("abc"), FirestoreValue::StringValue("abc".to_string()));
    assert_eq!(FirestoreValue::integer(42), FirestoreValue::IntegerValue("42".to_string()));
    assert_eq!(FirestoreValue::integer(-7), FirestoreValue::IntegerValue("-7".to_string()));
    assert_eq!(FirestoreValue::double(1.5f64.to_bits()), FirestoreValue::DoubleValue(1.5f64.to_bits()));
    assert_eq!(FirestoreValue::boolean(true), FirestoreValue::BooleanValue(true));
    assert_eq!(
        FirestoreValue::timestamp("2024-01-01T00:00:00Z"),
        FirestoreValue::TimestampValue("2024-01-01T00:00:00Z".to_string())
    );
    assert_eq!(FirestoreValue::null(), FirestoreValue::NullValue);
}

#[test]
fn reads_each_kind_of_value_as_itself_only() {
    let text = FirestoreValue::string("abc");
    assert_eq!(text.as_string(), Some("abc"));
    assert_eq!(text.as_integer(), None);
    assert_eq!(text.as_boolean(), None);
    assert_eq!(text.as_timestamp(), None);
    assert_eq!(text.as_double(), None);

    let number = FirestoreValue::integer(-12);
    assert_eq!(number.as_integer(), Some(-12));
    assert_eq!(number.as_string(), None);

    let flag = FirestoreValue::boolean(false);
    assert_eq!(flag.as_boolean(), Some(false));
    assert_eq!(flag.as_integer(), None);

    let stamp = FirestoreValue::timestamp("2024-01-01T00:00:00Z");
    assert_eq!(stamp.as_timestamp(), Some("2024-01-01T00:00:00Z"));
    assert_eq!(stamp.as_string(), None);

    let double = FirestoreValue::double(2.25f64.to_bits());
    assert_eq!(double.as_double().map(f64::from_bits), Some(2.25));
    assert_eq!(double.as_integer(), None);

    let null = FirestoreValue::null();
    assert_eq!(null.as_string(), None);
    assert_eq!(null.as_integer(), None);
    assert_eq!(null.as_boolean(), None);
    assert_eq!(null.as_timestamp(), None);
    assert_eq!(null.as_double(), None);

    let nested = FirestoreValue::MapValue(MapValue { fields: FieldMap::new() });
    assert_eq!(nested.as_string(), None);
    assert_eq!(nested.as_boolean(), None);
}

#[test]
fn integer_text_that_is_no_integer_reads_as_none() {
    assert_eq!(FirestoreValue::IntegerValue("12x".to_string()).as_integer(), None);
    assert_eq!(FirestoreValue::IntegerValue("".to_string()).as_integer(), None);
    assert_eq!(
        FirestoreValue::IntegerValue("9223372036854775808".to_string()).as_integer(),
        None
    );
    assert_eq!(
        FirestoreValue::IntegerValue("-9223372036854775808".to_string()).as_integer(),
        Some(i64::MIN)
    );
}

#[test]
fn integers_survive_the_wire() {
    for v in [0i64, 1, -1, 500, i64::MAX, i64::MIN] {
        assert_eq!(FirestoreValue::integer(v).as_integer(), Some(v));
    }
}

#[test]
fn field_map_keeps_each_key_once() {
    let mut fields = FieldMap::new();
    assert_eq!(fields.entries().len(), 0);
    assert!(fields.get("a").is_none());
    fields.insert("a".to_string(), FirestoreValue::string("one"));
    fields.insert("b".to_string(), FirestoreValue::boolean(true));
    fields.insert("a".to_string(), FirestoreValue::string("two"));
    assert_eq!(fields.entries().len(), 2);
    assert_eq!(fields.get("a"), Some(&FirestoreValue::string("two")));
    assert_eq!(fields.get("b"), Some(&FirestoreValue::boolean(true)));
    assert!(fields.get("c").is_none());
    assert_eq!(fields.entries()[0].key, "a");
    assert_eq!(fields.entries()[1].key, "b");
}

#[test]
fn field_map_lookups_by_type() {
    let mut fields = FieldMap::new();
    fields.insert("name".to_string(), FirestoreValue::string("Jane"));
    fields.insert("active".to_string(), FirestoreValue::boolean(true));
    fields.insert("version".to_string(), FirestoreValue::integer(3));
    assert_eq!(fields.get_str("name"), Some("Jane"));
    assert_eq!(fields.get_str("active"), None);
    assert_eq!(fields.get_str("missing"), None);
    assert_eq!(fields.get_bool("active"), Some(true));
    assert_eq!(fields.get_bool("name"), None);
    assert_eq!(fields.get_int("version"), Some(3));
    assert_eq!(fields.get_int("name"), None);
    assert_eq!(fields.get_int("missing"), None);
}

#[test]
fn extracts_document_id() {
    assert_eq!(
        extract_document_id("projects/foo/databases/(default)/documents/courts/X/offenders/ABC"),
        "ABC"
    );
    assert_eq!(extract_document_id(""), "");
    assert_eq!(extract_document_id("no-slash"), "no-slash");
    assert_eq!(extract_document_id("ends/with/"), "");
}

#[test]
fn collects_the_documents_of_an_answer_in_order() {
    let items = vec![
        RunQueryResponseItem { document: Some(document("a")) },
        RunQueryResponseItem { document: None },
        RunQueryResponseItem { document: Some(document("b")) },
        RunQueryResponseItem { document: Some(document("c")) },
        RunQueryResponseItem { document: None },
    ];
    let names: Vec<String> = collect_documents(items).into_iter().map(|d| d.name).collect();
    assert_eq!(names, vec!["a", "b", "c"]);
    assert_eq!(collect_documents(vec![]).len(), 0);
    assert_eq!(collect_documents(vec![RunQueryResponseItem { document: None }]).len(), 0);
}

#[test]
fn builds_filters_and_orderings() {
    let filter = Filter::field("updatedAt", "GREATER_THAN", FirestoreValue::timestamp("t"));
    assert!(filter.composite_filter.is_none());
    let field = filter.field_filter.as_ref().unwrap();
    assert_eq!(field.field.field_path, "updatedAt");
    assert_eq!(field.op, "GREATER_THAN");
    assert_eq!(field.value, FirestoreValue::timestamp("t"));

    let both = Filter::and(vec![
        Filter::field("a", "EQUAL", FirestoreValue::integer(1)),
        Filter::field("b", "EQUAL", FirestoreValue::integer(2)),
    ]);
    assert!(both.field_filter.is_none());
    let composite = both.composite_filter.unwrap();
    assert_eq!(composite.op, "AND");
    assert_eq!(composite.filters.len(), 2);
    assert_eq!(composite.filters[1].field_filter.as_ref().unwrap().field.field_path, "b");

    let order = OrderBy::asc("updatedAt");
    assert_eq!(order.field.field_path, "updatedAt");
    assert_eq!(order.direction, "ASCENDING");
}

#[test]
fn addresses_requests() {
    let client = FirestoreClient::new("proj", "KEY");
    let base = "https://firestore.googleapis.com/v1/projects/proj/databases/(default)/documents";
    assert_eq!(client.base_url(), base);
    assert_eq!(client.url_with_key("courts/c1"), format!("{}/courts/c1?key=KEY", base));

    let get = client.get_document_request("courts/c1/offenders/x");
    assert_eq!(get.method, HttpMethod::Get);
    assert!(!get.has_body);
    assert_eq!(get.url, format!("{}/courts/c1/offenders/x?key=KEY", base));

    let create = client.create_document_request("courts/c1/offenders", "x");
    assert_eq!(create.method, HttpMethod::Post);
    assert!(create.has_body);
    assert_eq!(create.url, format!("{}/courts/c1/offenders?documentId=x&key=KEY", base));

    let update = client.update_document_request("courts/c1/offenders/x");
    assert_eq!(update.method, HttpMethod::Patch);
    assert!(update.has_body);
    assert_eq!(update.url, format!("{}/courts/c1/offenders/x?key=KEY", base));

    let delete = client.delete_document_request("courts/c1/offenders/x");
    assert_eq!(delete.method, HttpMethod::Delete);
    assert!(!delete.has_body);
    assert_eq!(delete.url, format!("{}/courts/c1/offenders/x?key=KEY", base));

    let query = client.run_query_request("courts/c1");
    assert_eq!(query.method, HttpMethod::Post);
    assert!(query.has_body);
    assert_eq!(query.url, format!("{}/courts/c1:runQuery?key=KEY", base));
}

#[test]
fn addresses_listings_page_by_page() {
    let client = FirestoreClient::new("proj", "KEY");
    let base = "https://firestore.googleapis.com/v1/projects/proj/databases/(default)/documents";
    assert_eq!(
        client.list_documents_request("courts", None, None).url,
        format!("{}/courts?key=KEY", base)
    );
    assert_eq!(
        client.list_documents_request("courts", Some(100), None).url,
        format!("{}/courts?key=KEY&pageSize=100", base)
    );
    assert_eq!(
        client.list_documents_request("courts", None, Some("tok")).url,
        format!("{}/courts?key=KEY&pageToken=tok", base)
    );
    let both = client.list_documents_request("courts", Some(-1), Some("tok"));
    assert_eq!(both.url, format!("{}/courts?key=KEY&pageSize=-1&pageToken=tok", base));
    assert_eq!(both.method, HttpMethod::Get);
    assert!(!both.has_body);
}

#[test]
fn classifies_answers() {
    assert_eq!(
        classify(HttpOutcome::Answered { status: 200, body: "{}".to_string() }),
        Ok("{}".to_string())
    );
    assert_eq!(
        classify(HttpOutcome::Answered { status: 299, body: "x".to_string() }),
        Ok("x".to_string())
    );
    assert_eq!(
        classify(HttpOutcome::Answered { status: 199, body: "x".to_string() }),
        Err(RemoteError::Rejected { status: 199, body: "x".to_string() })
    );
    assert_eq!(
        classify(HttpOutcome::Answered { status: 300, body: "x".to_string() }),
        Err(RemoteError::Rejected { status: 300, body: "x".to_string() })
    );
    assert_eq!(
        classify(HttpOutcome::Answered { status: 404, body: "gone".to_string() }),
        Err(RemoteError::Rejected { status: 404, body: "gone".to_string() })
    );
    assert_eq!(
        classify(HttpOutcome::Failed { error: "timeout".to_string() }),
        Err(RemoteError::Unavailable { message: "timeout".to_string() })
    );
}

#[test]
fn a_missing_document_is_no_failed_deletion() {
    assert_eq!(classify_delete(HttpOutcome::Answered { status: 200, body: String::new() }), Ok(()));
    assert_eq!(classify_delete(HttpOutcome::Answered { status: 404, body: "x".to_string() }), Ok(()));
    assert_eq!(
        classify_delete(HttpOutcome::Answered { status: 403, body: "no".to_string() }),
        Err(RemoteError::Rejected { status: 403, body: "no".to_string() })
    );
    assert_eq!(
        classify_delete(HttpOutcome::Failed { error: "down".to_string() }),
        Err(RemoteError::Unavailable { message: "down".to_string() })
    );
}

#[test]
fn describes_failures() {
    assert_eq!(
        RemoteError::Unavailable { message: "timeout".to_string() }.describe("GET"),
        "Firestore GET failed: timeout"
    );
    assert_eq!(
        RemoteError::Rejected { status: 404, body: "not found".to_string() }.describe("UPDATE"),
        "Firestore UPDATE error (HTTP 404): not found"
    );
}
