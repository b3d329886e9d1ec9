use nakama_rpc::dispatch::{is_json_success, log_path, log_text, request_body, rpc_url};

#[test]
fn request_for_ping() {
    assert_eq!(rpc_url("http://h", "ping", "k"), "http://h/v2/rpc/ping?http_key=k");
    assert_eq!(request_body("ping", "{\"a\":1}"), "{\"id\":\"ping\",\"payload\":\"{\\\"a\\\":1}\"}");
}

#[test]
fn url_components_are_not_encoded() {
    assert_eq!(rpc_url("https://x:7350", "a b", "k&y"), "https://x:7350/v2/rpc/a b?http_key=k&y");
}

#[test]
fn json_success_response_is_logged() {
    assert!(is_json_success(200, "application/json"));
    assert!(is_json_success(204, "application/json; charset=utf-8"));
    assert_eq!(log_text("ok"), "{\n  \"payload\": \"ok\"\n}");
    assert_eq!(log_path("2024-01-02T03-04-05", "ping"), "logs/2024-01-02T03-04-05_ping.json");
}

#[test]
fn error_response_is_not_a_success() {
    assert!(!is_json_success(500, "application/json"));
    assert!(!is_json_success(500, "text/plain"));
    assert!(!is_json_success(200, "text/plain"));
    assert!(!is_json_success(200, ""));
    assert!(!is_json_success(199, "application/json"));
    assert!(!is_json_success(300, "application/json"));
    assert!(is_json_success(299, "application/json"));
}

#[test]
fn payload_with_quotes_is_escaped_in_the_log() {
    assert_eq!(log_text("say \"hi\"\n"), "{\n  \"payload\": \"say \\\"hi\\\"\\n\"\n}");
}

#[test]
fn control_characters_are_escaped_in_the_body() {
    assert_eq!(
        request_body("a\\b", "\u{1}\u{8}\t\u{c}\r\u{1f}é"),
        "{\"id\":\"a\\\\b\",\"payload\":\"\\u0001\\b\\t\\f\\r\\u001fé\"}"
    );
}
