use overleaf_service::json::{error_body, json_string, typed_error_body};
use overleaf_service::response::{error_response, ApiResponse, JSON_CONTENT_TYPE};
use overleaf_service::routes::{
    fixed_response, response_for_method, route_request, update_flag_after, ApiRoute, RouteDecision,
};
use overleaf_service::target::{normalize_path, percent_decode, query_param, split_at_char};
use overleaf_service::task_api::{
    next_retry_task_id, normalized_optional_text, parse_u64_text, tasks_query, TasksQuery,
};

#[test]
fn json_string_escapes_quotes_and_control_characters() {
    assert_eq!(json_string("a\"b\\c\n"), "\"a\\\"b\\\\c\\n\"");
    assert_eq!(json_string("账号"), "\"账号\"");
}

#[test]
fn error_bodies_are_json_objects() {
    assert_eq!(error_body("not found"), "{\"error\":\"not found\"}");
    assert_eq!(
        typed_error_body("card_bin must be empty or exactly six digits", "invalid_card_bin"),
        "{\"error\":\"card_bin must be empty or exactly six digits\",\"kind\":\"invalid_card_bin\"}"
    );
}

#[test]
fn status_text_names_known_codes() {
    let r = error_response(409, "busy");
    assert_eq!(r.status_text(), "Conflict");
    let other = ApiResponse { status_code: 418, content_type: JSON_CONTENT_TYPE, body: String::new() };
    assert_eq!(other.status_text(), "OK");
}

#[test]
fn percent_decode_handles_plus_escapes_and_invalid_escapes() {
    assert_eq!(percent_decode("a+b%20c"), "a b c");
    assert_eq!(percent_decode("100%"), "100%");
    assert_eq!(percent_decode("%zz"), "%zz");
    assert_eq!(percent_decode("%E8%B4%A6"), "账");
    assert_eq!(percent_decode("plain"), "plain");
}

#[test]
fn percent_decode_replaces_invalid_utf8() {
    assert_eq!(percent_decode("%FF"), "\u{FFFD}");
}

#[test]
fn normalize_path_drops_the_query_and_adds_a_slash() {
    assert_eq!(normalize_path("/tasks?since=3"), "/tasks");
    assert_eq!(normalize_path("tasks"), "/tasks");
    assert_eq!(normalize_path("  ?x=1"), "/");
    assert_eq!(normalize_path(""), "/");
}

#[test]
fn split_at_char_splits_at_the_first_occurrence() {
    assert_eq!(split_at_char("a=b=c", '='), ("a".to_string(), Some("b=c".to_string())));
    assert_eq!(split_at_char("abc", '='), ("abc".to_string(), None));
}

#[test]
fn query_param_finds_the_first_matching_key() {
    assert_eq!(query_param("/x?a=1&b=two+words&a=3", "a"), Some("1".to_string()));
    assert_eq!(query_param("/x?a=1&b=two+words", "b"), Some("two words".to_string()));
    assert_eq!(query_param("/x?flag&b=1", "flag"), Some(String::new()));
    assert_eq!(query_param("/x?a=1", "c"), None);
    assert_eq!(query_param("/x", "a"), None);
}

#[test]
fn tasks_query_reads_since() {
    assert!(matches!(tasks_query("/tasks"), TasksQuery::All));
    assert!(matches!(tasks_query("/tasks?since=42"), TasksQuery::Since(42)));
    assert!(matches!(tasks_query("/tasks?since=%20"), TasksQuery::Invalid));
    assert!(matches!(tasks_query("/tasks?since=-1"), TasksQuery::Invalid));
}

#[test]
fn parse_u64_text_accepts_digits_only() {
    assert_eq!(parse_u64_text("0"), Some(0));
    assert_eq!(parse_u64_text("18446744073709551615"), Some(u64::MAX));
    assert_eq!(parse_u64_text("18446744073709551616"), None);
    assert_eq!(parse_u64_text(""), None);
    assert_eq!(parse_u64_text("+1"), Some(1));
    assert_eq!(parse_u64_text("+"), None);
    assert_eq!(parse_u64_text("-1"), None);
}

#[test]
fn normalized_optional_text_trims_and_drops_blank() {
    assert_eq!(normalized_optional_text(Some("  id-1 ".to_string())), Some("id-1".to_string()));
    assert_eq!(normalized_optional_text(Some("   ".to_string())), None);
    assert_eq!(normalized_optional_text(None), None);
}

#[test]
fn retry_ids_skip_taken_candidates() {
    let existing = vec!["t-retry-100".to_string(), "t-retry-100-1".to_string()];
    assert_eq!(next_retry_task_id("t", None, 100, &existing), "t-retry-100-2");
    assert_eq!(next_retry_task_id("t", None, 7, &existing), "t-retry-7");
    assert_eq!(next_retry_task_id("t", Some(" mine ".to_string()), 100, &existing), "mine");
}

#[test]
fn preflight_and_unknown_paths_are_answered_without_a_handler() {
    let (path, d) = route_request("OPTIONS", "/anything", false, false);
    assert_eq!(path, "/anything");
    assert_eq!(d, RouteDecision::Preflight);
    let r = fixed_response(d).unwrap();
    assert_eq!(r.status_code, 204);
    assert_eq!(r.body, "");
    let (_, d) = route_request("GET", "/no/such/path", false, false);
    assert_eq!(d, RouteDecision::NotFound);
    assert_eq!(fixed_response(d).unwrap().status_code, 404);
}

#[test]
fn routes_reach_their_handlers() {
    let (_, d) = route_request("GET", "/health", false, false);
    assert_eq!(d, RouteDecision::Handle(ApiRoute::Health));
    let (_, d) = route_request("HEAD", "/tasks?since=1", false, false);
    assert_eq!(d, RouteDecision::Handle(ApiRoute::Tasks));
    assert!(fixed_response(d).is_none());
}

#[test]
fn prepared_updates_refuse_writes_until_cancelled() {
    let (_, d) = route_request("POST", "/accounts/import", true, false);
    assert_eq!(d, RouteDecision::UpdateInProgress);
    assert_eq!(fixed_response(d).unwrap().status_code, 503);
    let (_, d) = route_request("POST", "/runtime/updates/cancel", true, false);
    assert_eq!(d, RouteDecision::CancelUpdate);
    assert!(!update_flag_after(d, true));
    let (_, d) = route_request("POST", "/runtime/updates/prepare", false, true);
    assert_eq!(d, RouteDecision::TasksBusy);
    assert_eq!(fixed_response(d).unwrap().status_code, 409);
    let (_, d) = route_request("POST", "/runtime/updates/prepare", false, false);
    assert_eq!(d, RouteDecision::PrepareUpdate);
    assert!(update_flag_after(d, false));
    assert_eq!(fixed_response(d).unwrap().body, "{\"ready\":true}");
}

#[test]
fn wrong_methods_are_not_allowed() {
    let (_, d) = route_request("DELETE", "/health", false, false);
    assert_eq!(d, RouteDecision::MethodNotAllowed);
    assert_eq!(fixed_response(d).unwrap().status_code, 405);
}

#[test]
fn head_answers_carry_no_body() {
    let r = error_response(404, "not found");
    let head = response_for_method("HEAD", r.clone());
    assert_eq!(head.status_code, 404);
    assert_eq!(head.body, "");
    let get = response_for_method("GET", r);
    assert_eq!(get.body, "{\"error\":\"not found\"}");
}

#[test]
fn percent_decode_reverses_byte_wise_encoding() {
    for text in ["", "a b", "100%", "账号/x?y=z", "%41+"] {
        let encoded: String = text.bytes().map(|b| format!("%{:02X}", b)).collect();
        assert_eq!(percent_decode(&encoded), text);
    }
    assert_eq!(percent_decode("%41"), "A");
    assert_eq!(percent_decode("%4"), "%4");
    assert_eq!(percent_decode("%%41"), "%A");
    assert_eq!(query_param("/t?my%20key=a+b%21", "my key"), Some("a b!".to_string()));
}
