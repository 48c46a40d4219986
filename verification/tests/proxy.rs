use tulsbot_desktop::proxy::{
    interpret_response, method_from_upper, parse_method, plan_request, request_with, HttpMethod,
    ProxyError, REQUEST_TIMEOUT_SECS,
};

#[test]
fn upstream_404_carries_status_and_body() {
    let reply = interpret_response(404, "no such page".to_string());
    match reply {
        Err(error) => {
            assert!(matches!(&error, ProxyError::Upstream { status: 404, body } if body == "no such page"));
            let text = error.message();
            assert!(text.contains("404"));
            assert!(text.contains("no such page"));
            assert_eq!(text, "HTTP 404: no such page");
        }
        Ok(_) => panic!("a 404 is an error"),
    }
}

#[test]
fn statuses_from_400_on_are_errors() {
    assert!(matches!(interpret_response(400, String::new()), Err(ProxyError::Upstream { status: 400, .. })));
    assert!(matches!(interpret_response(500, "x".to_string()), Err(ProxyError::Upstream { status: 500, .. })));
    assert!(matches!(interpret_response(65535, "x".to_string()), Err(ProxyError::Upstream { status: 65535, .. })));
    assert_eq!(interpret_response(500, "boom".to_string()).unwrap_err().message(), "HTTP 500: boom");
}

#[test]
fn statuses_below_400_hand_the_body_on() {
    assert_eq!(interpret_response(200, "ok".to_string()).unwrap(), "ok");
    assert_eq!(interpret_response(399, "edge".to_string()).unwrap(), "edge");
    assert_eq!(interpret_response(0, String::new()).unwrap(), "");
    assert_eq!(interpret_response(302, "moved".to_string()).unwrap(), "moved");
}

#[test]
fn methods_are_found_in_any_letter_case() {
    assert_eq!(parse_method("get").unwrap(), HttpMethod::Get);
    assert_eq!(parse_method("GET").unwrap(), HttpMethod::Get);
    assert_eq!(parse_method("Post").unwrap(), HttpMethod::Post);
    assert_eq!(parse_method("pUt").unwrap(), HttpMethod::Put);
    assert_eq!(parse_method("delete").unwrap(), HttpMethod::Delete);
    assert_eq!(parse_method("patch").unwrap(), HttpMethod::Patch);
}

#[test]
fn unknown_method_is_reported_in_upper_case() {
    let error = parse_method("trace").unwrap_err();
    assert!(matches!(&error, ProxyError::UnsupportedMethod(name) if name == "TRACE"));
    assert_eq!(error.message(), "Unsupported HTTP method: TRACE");
    assert_eq!(parse_method("").unwrap_err().message(), "Unsupported HTTP method: ");
    assert_eq!(parse_method(" get").unwrap_err().message(), "Unsupported HTTP method:  GET");
}

#[test]
fn upper_case_lookup_is_exact() {
    assert_eq!(method_from_upper("PATCH").unwrap(), HttpMethod::Patch);
    assert!(matches!(method_from_upper("get"), Err(ProxyError::UnsupportedMethod(name)) if name == "get"));
    assert!(matches!(method_from_upper("GETS"), Err(ProxyError::UnsupportedMethod(name)) if name == "GETS"));
}

#[test]
fn method_names_are_the_wire_names() {
    assert_eq!(HttpMethod::Get.as_str(), "GET");
    assert_eq!(HttpMethod::Post.as_str(), "POST");
    assert_eq!(HttpMethod::Put.as_str(), "PUT");
    assert_eq!(HttpMethod::Delete.as_str(), "DELETE");
    assert_eq!(HttpMethod::Patch.as_str(), "PATCH");
    for method in [HttpMethod::Get, HttpMethod::Post, HttpMethod::Put, HttpMethod::Delete, HttpMethod::Patch] {
        assert_eq!(method_from_upper(method.as_str()).unwrap(), method);
    }
}

#[test]
fn request_with_body_is_declared_as_json() {
    let request = plan_request("post", "http://localhost:3001/api".to_string(), Some("{\"a\":1}".to_string())).unwrap();
    assert_eq!(request.method, HttpMethod::Post);
    assert_eq!(request.url, "http://localhost:3001/api");
    assert_eq!(request.timeout_secs, 60);
    assert_eq!(REQUEST_TIMEOUT_SECS, 60);
    assert_eq!(request.content_type, Some("application/json"));
    assert_eq!(request.body.as_deref(), Some("{\"a\":1}"));
}

#[test]
fn request_without_body_has_no_content_type() {
    let request = plan_request("GET", "http://localhost:3100/".to_string(), None).unwrap();
    assert_eq!(request.method, HttpMethod::Get);
    assert_eq!(request.url, "http://localhost:3100/");
    assert_eq!(request.timeout_secs, 60);
    assert_eq!(request.content_type, None);
    assert_eq!(request.body, None);
    let direct = request_with(HttpMethod::Delete, "u".to_string(), None);
    assert_eq!(direct.method, HttpMethod::Delete);
    assert_eq!(direct.body, None);
}

#[test]
fn unknown_method_plans_nothing() {
    let error = plan_request("head", "http://localhost/".to_string(), None).unwrap_err();
    assert_eq!(error.message(), "Unsupported HTTP method: HEAD");
}

#[test]
fn transport_errors_keep_their_text() {
    assert_eq!(ProxyError::SendFailed("connection refused".to_string()).message(), "Request failed: connection refused");
    assert_eq!(ProxyError::BodyFailed("bad encoding".to_string()).message(), "bad encoding");
}
