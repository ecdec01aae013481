use records_and_tracking::config::firebase::{HttpMethod, HttpOutcome};
use records_and_tracking::config::supabase::{QueryFilter, SupabaseClient};
use records_and_tracking::methods::files::{modified_after, modified_since_last_sync};

fn headers(request: &records_and_tracking::config::supabase::TableRequest) -> Vec<(String, String)> {
    request.headers.iter().map(|h| (h.name.clone(), h.value.clone())).collect()
}

fn pair(name: &str, value: &str) -> (String, String) {
    (name.to_string(), value.to_string())
}

#[test]
fn insertion_request() {
    let client = SupabaseClient::new("https://x.supabase.co/", "KEY", "TOKEN");
    let request = client.insert_request("files");
    assert_eq!(request.method, HttpMethod::Post);
    assert!(request.has_body);
    assert_eq!(request.url, "https://x.supabase.co/rest/v1/files");
    assert_eq!(
        headers(&request),
        vec![
            pair("apikey", "KEY"),
            pair("Authorization", "Bearer TOKEN"),
            pair("Content-Type", "application/json"),
            pair("Prefer", "return=representation"),
        ]
    );
}

#[test]
fn selection_request_encodes_its_conditions() {
    let client = SupabaseClient::new("https://x.supabase.co", "KEY", "TOKEN");
    let filters = vec![
        QueryFilter {
            column: "last_modified".to_string(),
            condition: "gt.2024-01-02 03:04:05.000000+00".to_string(),
        },
        QueryFilter { column: "name".to_string(), condition: "a b&c=d/é~".to_string() },
    ];
    let request = client.select_request("files", &filters);
    assert_eq!(request.method, HttpMethod::Get);
    assert!(!request.has_body);
    assert_eq!(
        request.url,
        "https://x.supabase.co/rest/v1/files?last_modified=gt.2024-01-02%2003%3A04%3A05.000000%2B00&name=a%20b%26c%3Dd%2F%C3%A9~"
    );
    assert_eq!(
        headers(&request),
        vec![
            pair("apikey", "KEY"),
            pair("Content-Type", "application/json"),
            pair("Authorization", "Bearer TOKEN"),
        ]
    );
}

#[test]
fn selection_without_token_or_conditions() {
    let client = SupabaseClient::new("https://x.supabase.co//", "KEY", "");
    let request = client.select_request("files", &vec![]);
    assert_eq!(request.url, "https://x.supabase.co/rest/v1/files?");
    assert_eq!(headers(&request), vec![pair("apikey", "KEY"), pair("Content-Type", "application/json")]);
    let one = client.select_request(
        "files",
        &vec![QueryFilter { column: "id".to_string(), condition: "eq.5".to_string() }],
    );
    assert_eq!(one.url, "https://x.supabase.co/rest/v1/files?id=eq.5");
}

#[test]
fn reads_the_answer_to_an_insertion() {
    assert_eq!(
        SupabaseClient::insert_result(HttpOutcome::Answered { status: 201, body: "[{}]".to_string() }),
        Ok("[{}]".to_string())
    );
    assert_eq!(
        SupabaseClient::insert_result(HttpOutcome::Answered { status: 409, body: "duplicate".to_string() }),
        Err("HTTP 409: duplicate".to_string())
    );
    assert_eq!(
        SupabaseClient::insert_result(HttpOutcome::Answered { status: 500, body: "<no body>".to_string() }),
        Err("HTTP 500: <no body>".to_string())
    );
    assert_eq!(
        SupabaseClient::insert_result(HttpOutcome::Failed { error: "connection reset".to_string() }),
        Err("Request error: connection reset".to_string())
    );
}

#[test]
fn reads_the_answer_to_a_selection() {
    assert_eq!(
        SupabaseClient::select_result(HttpOutcome::Answered { status: 200, body: "[]".to_string() }),
        Ok("[]".to_string())
    );
    assert_eq!(
        SupabaseClient::select_result(HttpOutcome::Answered { status: 401, body: "no".to_string() }),
        Err("Supabase error: 401 - no".to_string())
    );
    assert_eq!(
        SupabaseClient::select_result(HttpOutcome::Failed { error: "dns".to_string() }),
        Err("dns".to_string())
    );
}

#[test]
fn condition_for_files_modified_after_a_time() {
    let filter = modified_after("2024-01-02 03:04:05.000000+00");
    assert_eq!(filter.column, "last_modified");
    assert_eq!(filter.condition, "gt.2024-01-02 03:04:05.000000+00");
}

#[test]
fn condition_since_the_stored_time_of_the_last_sync() {
    let filter = modified_since_last_sync(Some("2024-01-02T03:04:05Z"));
    assert_eq!(filter.column, "last_modified");
    assert_eq!(filter.condition, "gt.2024-01-02 03:04:05.000000+00");
    let zoned = modified_since_last_sync(Some("2024-01-02T05:04:05.123456789+02:00"));
    assert_eq!(zoned.condition, "gt.2024-01-02 03:04:05.123456+00");
}

#[test]
fn condition_falls_back_to_the_present_time() {
    for stored in [None, Some("yesterday"), Some("")] {
        let filter = modified_since_last_sync(stored);
        assert_eq!(filter.column, "last_modified");
        assert!(filter.condition.starts_with("gt.20"), "{}", filter.condition);
        assert!(filter.condition.ends_with("+00"));
        assert_eq!(filter.condition.len(), "gt.2024-01-02 03:04:05.000000+00".len());
    }
}
