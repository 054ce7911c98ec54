use figmeta::fetch::build_url;
use figmeta::fetch::figma_headers;
use figmeta::fetch::interpret_response;
use figmeta::fetch::plan_request;
use figmeta::fetch::u64_to_string;
use figmeta::fetch::validate_config;
use figmeta::json::JsonValue;
use figmeta::model::FetchConfig;
use figmeta::model::FetchError;

fn config() -> FetchConfig {
    FetchConfig {
        api_root: "https://api.figma.com".to_owned(),
        access_token: "SECRET-REDACTED".to_owned(),
        project_id: 5027923,
    }
}

fn valid_body() -> JsonValue {
    JsonValue::Object(vec![
        ("name".to_owned(), JsonValue::Text("P".to_owned())),
        ("files".to_owned(), JsonValue::Array(vec![])),
    ])
}

#[test]
fn url_is_exact_for_the_documented_configuration() {
    assert_eq!(
        build_url(&config()),
        "https://api.figma.com/v1/projects/5027923/files"
    );
}

#[test]
fn plan_carries_one_get_with_exact_url_and_headers() {
    let plan = plan_request(&config()).unwrap();
    assert_eq!(plan.method, "GET");
    assert_eq!(plan.url, "https://api.figma.com/v1/projects/5027923/files");
    assert_eq!(plan.headers.len(), 3);
    assert_eq!(plan.headers[0].0, "Accept");
    assert_eq!(plan.headers[0].1, "application/json");
    assert_eq!(plan.headers[1].0, "Content-Type");
    assert_eq!(plan.headers[1].1, "application/json");
    assert_eq!(plan.headers[2].0, "X-Figma-Token");
    assert_eq!(plan.headers[2].1, "SECRET-REDACTED");
}

#[test]
fn empty_token_is_rejected_before_any_request() {
    let mut c = config();
    c.access_token = String::new();
    assert!(!validate_config(&c));
    assert_eq!(plan_request(&c).unwrap_err(), FetchError::ConfigError);
}

#[test]
fn empty_api_root_is_rejected() {
    let mut c = config();
    c.api_root = String::new();
    assert_eq!(plan_request(&c).unwrap_err(), FetchError::ConfigError);
}

#[test]
fn zero_project_id_is_rejected() {
    let mut c = config();
    c.project_id = 0;
    assert_eq!(plan_request(&c).unwrap_err(), FetchError::ConfigError);
}

#[test]
fn forbidden_status_is_a_transport_error() {
    assert_eq!(
        interpret_response(403, &valid_body()).unwrap_err(),
        FetchError::TransportError
    );
}

#[test]
fn redirect_and_server_errors_are_transport_errors() {
    assert_eq!(
        interpret_response(301, &valid_body()).unwrap_err(),
        FetchError::TransportError
    );
    assert_eq!(
        interpret_response(500, &valid_body()).unwrap_err(),
        FetchError::TransportError
    );
    assert_eq!(
        interpret_response(199, &valid_body()).unwrap_err(),
        FetchError::TransportError
    );
}

#[test]
fn success_statuses_reach_the_body() {
    assert_eq!(interpret_response(200, &valid_body()).unwrap().name, "P");
    assert_eq!(interpret_response(299, &valid_body()).unwrap().name, "P");
}

#[test]
fn success_status_with_bad_body_is_a_schema_mismatch() {
    let body = JsonValue::Object(vec![("name".to_owned(), JsonValue::Text("P".to_owned()))]);
    assert_eq!(
        interpret_response(200, &body).unwrap_err(),
        FetchError::SchemaMismatch
    );
}

#[test]
fn numbers_render_in_decimal() {
    assert_eq!(u64_to_string(0), "0");
    assert_eq!(u64_to_string(7), "7");
    assert_eq!(u64_to_string(10), "10");
    assert_eq!(u64_to_string(5027923), "5027923");
    assert_eq!(u64_to_string(u64::MAX), "18446744073709551615");
}

#[test]
fn headers_do_not_depend_on_the_project() {
    let mut c = config();
    c.project_id = 1;
    let h = figma_headers(&c);
    assert_eq!(h.len(), 3);
    assert_eq!(h[2].1, "SECRET-REDACTED");
}
