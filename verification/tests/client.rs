use arrakis::client::{rejection_message, API_KEY_HEADER, BASE_URL, DEFAULT_TIMEOUT_SECS};
use arrakis::json::extract_error_message;
use arrakis::text::decimal_string;
use arrakis::{
    ApiRequest, DuneClient, DuneError, ExecuteQueryRequest, ExecuteSqlRequest, ExecutionState,
    HttpMethod, HttpStatus, Performance, QueryParameter, RequestBody, ResultOptions, TimeSpan,
};

fn client() -> DuneClient {
    DuneClient::with_base_url("secret", "http://host/api").unwrap()
}

fn status(code: u16) -> HttpStatus {
    HttpStatus::from_u16(code).unwrap()
}

fn pair(name: &str, value: &str) -> (String, String) {
    (name.to_string(), value.to_string())
}

#[test]
fn new_accepts_a_plain_key() {
    let c = DuneClient::new("your-api-key").unwrap();
    assert_eq!(c.api_key(), "your-api-key");
    assert_eq!(c.base_url(), "https://api.dune.com/api");
    assert_eq!(c.base_url(), BASE_URL);
}

#[test]
fn new_rejects_an_empty_key() {
    assert_eq!(DuneClient::new(""), Err(DuneError::InvalidApiKey));
    assert_eq!(DuneClient::with_base_url("", "http://host"), Err(DuneError::InvalidApiKey));
}

#[test]
fn new_rejects_control_characters() {
    assert_eq!(DuneClient::new("bad\nkey"), Err(DuneError::InvalidApiKey));
    assert_eq!(DuneClient::new("bad\rkey"), Err(DuneError::InvalidApiKey));
    assert_eq!(DuneClient::new("\u{7f}"), Err(DuneError::InvalidApiKey));
    assert_eq!(DuneClient::new("\u{0}"), Err(DuneError::InvalidApiKey));
    assert_eq!(DuneClient::new("\u{1f}"), Err(DuneError::InvalidApiKey));
}

#[test]
fn new_accepts_tab_space_and_text_beyond_ascii() {
    assert!(DuneClient::new("a\tb").is_ok());
    assert!(DuneClient::new(" ").is_ok());
    assert!(DuneClient::new("~").is_ok());
    assert!(DuneClient::new("\u{80}").is_ok());
    assert!(DuneClient::new("schl\u{fc}ssel").is_ok());
    assert!(DuneClient::new("\u{43a}\u{43b}\u{44e}\u{447}").is_ok());
}

#[test]
fn with_base_url_keeps_both_values() {
    let c = DuneClient::with_base_url("k", "http://localhost:8080").unwrap();
    assert_eq!(c.api_key(), "k");
    assert_eq!(c.base_url(), "http://localhost:8080");
    let d = c.clone();
    assert_eq!(c, d);
}

#[test]
fn constants_have_their_values() {
    assert_eq!(BASE_URL, "https://api.dune.com/api");
    assert_eq!(API_KEY_HEADER, "X-Dune-Api-Key");
    assert_eq!(DEFAULT_TIMEOUT_SECS, 30);
}

#[test]
fn decimal_string_matches_the_usual_numeral() {
    assert_eq!(decimal_string(0), "0");
    assert_eq!(decimal_string(7), "7");
    assert_eq!(decimal_string(9), "9");
    assert_eq!(decimal_string(10), "10");
    assert_eq!(decimal_string(1234567), "1234567");
    assert_eq!(decimal_string(1002003004), "1002003004");
    assert_eq!(decimal_string(u64::MAX), "18446744073709551615");
}

#[test]
fn execute_sql_posts_the_text() {
    let r = client().execute_sql("SELECT 1");
    assert_eq!(
        r,
        ApiRequest {
            method: HttpMethod::Post,
            url: "http://host/api/v1/sql/execute".to_string(),
            query: vec![],
            body: RequestBody::Sql(ExecuteSqlRequest {
                sql: "SELECT 1".to_string(),
                parameters: None,
                performance: None,
            }),
        }
    );
}

#[test]
fn execute_sql_with_options_keeps_the_request() {
    let request = ExecuteSqlRequest {
        sql: "SELECT {{n}}".to_string(),
        parameters: Some(vec![QueryParameter { name: "n".to_string(), value: "3".to_string() }]),
        performance: Some(Performance::Large),
    };
    let r = client().execute_sql_with_options(request.clone());
    assert_eq!(r.method, HttpMethod::Post);
    assert_eq!(r.url, "http://host/api/v1/sql/execute");
    assert!(r.query.is_empty());
    assert_eq!(r.body, RequestBody::Sql(request));
}

#[test]
fn execute_query_names_the_query() {
    let r = client().execute_query(1234567);
    assert_eq!(r.method, HttpMethod::Post);
    assert_eq!(r.url, "http://host/api/v1/query/1234567/execute");
    assert!(r.query.is_empty());
    assert_eq!(r.body, RequestBody::Query(ExecuteQueryRequest::default()));
    let request =
        ExecuteQueryRequest { parameters: None, performance: Some(Performance::Medium) };
    let r = client().execute_query_with_options(0, request.clone());
    assert_eq!(r.url, "http://host/api/v1/query/0/execute");
    assert_eq!(r.body, RequestBody::Query(request));
}

#[test]
fn execute_pipeline_names_the_query() {
    let r = client().execute_pipeline(42);
    assert_eq!(r.method, HttpMethod::Post);
    assert_eq!(r.url, "http://host/api/v1/query/42/pipeline/execute");
    assert!(r.query.is_empty());
    assert_eq!(r.body, RequestBody::Query(ExecuteQueryRequest::default()));
    let request =
        ExecuteQueryRequest { parameters: Some(vec![]), performance: Some(Performance::Large) };
    let r = client().execute_pipeline_with_options(u64::MAX, request.clone());
    assert_eq!(r.url, "http://host/api/v1/query/18446744073709551615/pipeline/execute");
    assert_eq!(r.body, RequestBody::Query(request));
}

#[test]
fn status_results_and_cancel_name_the_execution() {
    let c = client();
    let r = c.get_execution_status("abc-1");
    assert_eq!(r.method, HttpMethod::Get);
    assert_eq!(r.url, "http://host/api/v1/execution/abc-1/status");
    assert!(r.query.is_empty());
    assert_eq!(r.body, RequestBody::Empty);
    let r = c.get_execution_results("abc-1");
    assert_eq!(r.method, HttpMethod::Get);
    assert_eq!(r.url, "http://host/api/v1/execution/abc-1/results");
    assert!(r.query.is_empty());
    let r = c.get_execution_results_csv("abc-1");
    assert_eq!(r.method, HttpMethod::Get);
    assert_eq!(r.url, "http://host/api/v1/execution/abc-1/results/csv");
    assert!(r.query.is_empty());
    let r = c.cancel_execution("abc-1");
    assert_eq!(r.method, HttpMethod::Post);
    assert_eq!(r.url, "http://host/api/v1/execution/abc-1/cancel");
    assert!(r.query.is_empty());
    assert_eq!(r.body, RequestBody::Empty);
}

#[test]
fn latest_results_name_the_query() {
    let c = client();
    let r = c.get_latest_results(9);
    assert_eq!(r.method, HttpMethod::Get);
    assert_eq!(r.url, "http://host/api/v1/query/9/results");
    assert!(r.query.is_empty());
    let r = c.get_latest_results_csv(9);
    assert_eq!(r.url, "http://host/api/v1/query/9/results/csv");
    assert!(r.query.is_empty());
    let options = ResultOptions { limit: Some(3), offset: None, sort_by: None };
    let r = c.get_latest_results_with_options(9, options.clone());
    assert_eq!(r.url, "http://host/api/v1/query/9/results");
    assert_eq!(r.query, vec![pair("limit", "3")]);
    let r = c.get_latest_results_csv_with_options(9, options);
    assert_eq!(r.url, "http://host/api/v1/query/9/results/csv");
    assert_eq!(r.query, vec![pair("limit", "3")]);
}

#[test]
fn limit_and_offset_give_exactly_two_parameters() {
    let options = ResultOptions { limit: Some(10), offset: Some(5), sort_by: None };
    assert_eq!(options.to_query_params(), vec![pair("limit", "10"), pair("offset", "5")]);
    let r = client().get_execution_results_with_options("e", options.clone());
    assert_eq!(r.url, "http://host/api/v1/execution/e/results");
    assert_eq!(r.query, vec![pair("limit", "10"), pair("offset", "5")]);
    let r = client().get_execution_results_csv_with_options("e", options);
    assert_eq!(r.url, "http://host/api/v1/execution/e/results/csv");
    assert_eq!(r.query, vec![pair("limit", "10"), pair("offset", "5")]);
}

#[test]
fn absent_options_give_no_parameters() {
    assert_eq!(ResultOptions::default().to_query_params(), vec![]);
    assert_eq!(
        ResultOptions::default(),
        ResultOptions { limit: None, offset: None, sort_by: None }
    );
}

#[test]
fn all_options_come_in_order() {
    let options =
        ResultOptions { limit: Some(0), offset: Some(u64::MAX), sort_by: Some("a desc".into()) };
    assert_eq!(
        options.to_query_params(),
        vec![
            pair("limit", "0"),
            pair("offset", "18446744073709551615"),
            pair("sortBy", "a desc")
        ]
    );
    let only_sort = ResultOptions { limit: None, offset: None, sort_by: Some("x".into()) };
    assert_eq!(only_sort.to_query_params(), vec![pair("sortBy", "x")]);
}

#[test]
fn request_defaults_are_empty() {
    let d = ExecuteSqlRequest::default();
    assert_eq!(d.sql, "");
    assert_eq!(d.parameters, None);
    assert_eq!(d.performance, None);
    let n = ExecuteSqlRequest::new("SELECT 2".to_string());
    assert_eq!(n.sql, "SELECT 2");
    assert_eq!(n.parameters, None);
    assert_eq!(n.performance, None);
    let q = ExecuteQueryRequest::default();
    assert_eq!(q.parameters, None);
    assert_eq!(q.performance, None);
}

#[test]
fn status_codes_have_three_digits() {
    assert_eq!(HttpStatus::from_u16(0), None);
    assert_eq!(HttpStatus::from_u16(99), None);
    assert_eq!(HttpStatus::from_u16(1000), None);
    assert_eq!(HttpStatus::from_u16(u16::MAX), None);
    assert_eq!(status(100).code(), 100);
    assert_eq!(status(999).code(), 999);
}

#[test]
fn success_is_two_hundred_to_two_ninety_nine() {
    assert!(!status(199).is_success());
    assert!(status(200).is_success());
    assert!(status(204).is_success());
    assert!(status(299).is_success());
    assert!(!status(300).is_success());
    assert!(!status(404).is_success());
}

#[test]
fn status_display_gives_code_and_reason() {
    assert_eq!(status(200).display(), "200 OK");
    assert_eq!(status(404).display(), "404 Not Found");
    assert_eq!(status(500).display(), "500 Internal Server Error");
    assert_eq!(status(999).display(), "999 <unknown status code>");
}

#[test]
fn success_hands_the_body_back() {
    let body = "{\"executionId\":\"abc\"}".to_string();
    assert_eq!(client().handle_response(status(200), body.clone()), Ok(body));
    assert_eq!(client().handle_response(status(299), "not json".into()), Ok("not json".into()));
}

#[test]
fn rejection_carries_the_error_member() {
    let r = client().handle_response(status(400), "{\"error\":\"bad query\"}".to_string());
    assert_eq!(r, Err(DuneError::Api { message: "bad query".to_string() }));
}

#[test]
fn rejection_without_json_carries_status_and_body() {
    let r = client().handle_response(status(500), "oops".to_string());
    assert_eq!(r, Err(DuneError::Api { message: "HTTP 500 Internal Server Error: oops".into() }));
    let r = client().handle_response(status(404), String::new());
    assert_eq!(r, Err(DuneError::Api { message: "HTTP 404 Not Found: ".into() }));
}

#[test]
fn rejection_without_error_member_carries_status_and_body() {
    let r = client().handle_response(status(404), "{\"message\":\"x\"}".to_string());
    assert_eq!(r, Err(DuneError::Api { message: "HTTP 404 Not Found: {\"message\":\"x\"}".into() }));
    let r = client().handle_response(status(400), "{\"error\":5}".to_string());
    assert_eq!(r, Err(DuneError::Api { message: "HTTP 400 Bad Request: {\"error\":5}".into() }));
    let r = client().handle_response(status(400), "[\"error\"]".to_string());
    assert_eq!(r, Err(DuneError::Api { message: "HTTP 400 Bad Request: [\"error\"]".into() }));
    let r = client().handle_response(status(302), "\"error\"".to_string());
    assert_eq!(r, Err(DuneError::Api { message: "HTTP 302 Found: \"error\"".into() }));
}

#[test]
fn text_success_is_byte_for_byte() {
    let malformed = "a,b\n\"unterminated,1\n,,,\r\n\u{0}\u{fffd}".to_string();
    assert_eq!(client().handle_text_response(status(200), malformed.clone()), Ok(malformed));
    assert_eq!(client().handle_text_response(status(200), String::new()), Ok(String::new()));
}

#[test]
fn text_rejection_carries_the_error_member() {
    let r = client().handle_text_response(status(400), "{\"error\":\"bad query\"}".to_string());
    assert_eq!(r, Err(DuneError::Api { message: "bad query".to_string() }));
}

#[test]
fn text_rejection_without_json_carries_status_and_body() {
    let r = client().handle_text_response(status(500), "a,b\n1,2".to_string());
    assert_eq!(
        r,
        Err(DuneError::Api { message: "HTTP 500 Internal Server Error: a,b\n1,2".into() })
    );
    let r = client().handle_text_response(status(404), "{\"error\":5}".to_string());
    assert_eq!(r, Err(DuneError::Api { message: "HTTP 404 Not Found: {\"error\":5}".into() }));
    let r = client().handle_text_response(status(403), String::new());
    assert_eq!(r, Err(DuneError::Api { message: "HTTP 403 Forbidden: ".into() }));
}

#[test]
fn text_and_json_endpoints_reject_alike() {
    let bodies = ["{\"error\":\"bad query\"}", "{\"message\":\"x\"}", "plain", "", "[1,2]"];
    for code in [199u16, 300, 400, 401, 404, 429, 500, 503, 999] {
        for body in bodies {
            let as_json = client().handle_response(status(code), body.to_string());
            let as_text = client().handle_text_response(status(code), body.to_string());
            assert!(as_json.is_err());
            assert_eq!(as_json, as_text);
        }
    }
}

#[test]
fn rejection_message_prefers_the_extracted_text() {
    assert_eq!(rejection_message("400 Bad Request", "body", Some("why".into())), "why");
    assert_eq!(rejection_message("400 Bad Request", "body", Some(String::new())), "");
    assert_eq!(rejection_message("400 Bad Request", "body", None), "HTTP 400 Bad Request: body");
    assert_eq!(rejection_message("", "", None), "HTTP : ");
}

#[test]
fn extract_error_message_reads_only_a_string_member() {
    assert_eq!(extract_error_message("{\"error\":\"bad query\"}"), Some("bad query".to_string()));
    assert_eq!(extract_error_message("{\"a\":1,\"error\":\"x\\ny\"}"), Some("x\ny".to_string()));
    assert_eq!(extract_error_message("{\"error\":\"\"}"), Some(String::new()));
    assert_eq!(extract_error_message("{\"error\":null}"), None);
    assert_eq!(extract_error_message("{\"error\":{\"error\":\"deep\"}}"), None);
    assert_eq!(extract_error_message("{\"Error\":\"case\"}"), None);
    assert_eq!(extract_error_message("{\"error\":\"cut"), None);
    assert_eq!(extract_error_message("error"), None);
    assert_eq!(extract_error_message(""), None);
}

#[test]
fn terminal_states_are_the_three_resting_ones() {
    assert!(!ExecutionState::Pending.is_terminal());
    assert!(!ExecutionState::Executing.is_terminal());
    assert!(ExecutionState::Completed.is_terminal());
    assert!(ExecutionState::Failed.is_terminal());
    assert!(ExecutionState::Cancelled.is_terminal());
}

#[test]
fn time_span_holds_less_than_a_second_of_nanos() {
    assert_eq!(TimeSpan::new(1, 1_000_000_000), None);
    assert_eq!(TimeSpan::new(1, u32::MAX), None);
    let t = TimeSpan::new(3, 999_999_999).unwrap();
    assert_eq!(t.as_secs(), 3);
    assert_eq!(t.subsec_nanos(), 999_999_999);
    assert_eq!(TimeSpan::from_secs(5), TimeSpan::new(5, 0).unwrap());
}

#[test]
fn exceeds_is_strictly_longer() {
    let a = TimeSpan::new(1, 0).unwrap();
    let b = TimeSpan::new(1, 1).unwrap();
    let c = TimeSpan::new(0, 999_999_999).unwrap();
    let d = TimeSpan::new(2, 0).unwrap();
    assert!(!a.exceeds(&a));
    assert!(b.exceeds(&a));
    assert!(!a.exceeds(&b));
    assert!(a.exceeds(&c));
    assert!(!c.exceeds(&a));
    assert!(d.exceeds(&b));
    assert!(!b.exceeds(&d));
}
