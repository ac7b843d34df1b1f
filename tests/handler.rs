use api_zhongli::{
    credentials_from_outcome, dispatch, is_vend_route, not_found_response, vend_error_response, vend_response,
    Dispatch, HttpResponse, TemporaryCredential, VendError, VendorConfig, VEND_FAILURE_STATUS,
};
use serde_json::Value;

fn header<'a>(resp: &'a HttpResponse, name: &str) -> Option<&'a str> {
    resp.headers.iter().find(|(n, _)| n == name).map(|(_, v)| v.as_str())
}

fn respond(method: &str, path: &str) -> HttpResponse {
    match dispatch(&VendorConfig::standard(), method, path) {
        Dispatch::Respond(resp) => resp,
        Dispatch::AssumeRole(_) => panic!("{} {} was routed to the vendor", method, path),
    }
}

fn sample_credential() -> TemporaryCredential {
    TemporaryCredential {
        access_key_id: "AKIA...".to_string(),
        secret_access_key: "xyz".to_string(),
        session_token: "tok".to_string(),
        expiration: "2024-01-01T00:00:00Z".to_string(),
    }
}

#[test]
fn test_not_found() {
    let response = respond("GET", "/");
    assert_eq!(response.status, 404);
}

#[test]
fn get_health_is_not_found_with_error_body() {
    let resp = respond("GET", "/health");
    assert_eq!(resp.status, 404);
    assert_eq!(header(&resp, "content-type"), Some("application/json"));
    assert_eq!(resp.body, "{\"error\":\"Received request: GET /health\"}");
    let v: Value = serde_json::from_str(&resp.body).unwrap();
    assert!(v.get("error").unwrap().is_string());
}

#[test]
fn every_other_route_is_not_found() {
    let cases = [
        ("GET", "/Prod/api-zhongli"),
        ("OPTIONS", "/Prod/api-zhongli"),
        ("post", "/Prod/api-zhongli"),
        ("POST", "/Prod/api-zhongli/"),
        ("POST", "/prod/api-zhongli"),
        ("POST", ""),
        ("", ""),
        ("DELETE", "/anything"),
    ];
    for (method, path) in cases {
        let resp = respond(method, path);
        assert_eq!(resp.status, 404);
        let v: Value = serde_json::from_str(&resp.body).unwrap();
        let obj = v.as_object().unwrap();
        assert_eq!(obj.len(), 1);
        assert!(obj["error"].is_string());
        assert_eq!(header(&resp, "access-control-allow-origin"), None);
    }
}

#[test]
fn not_found_message_is_escaped() {
    let resp = not_found_response("GET", "/a\"b\\c\n");
    assert_eq!(resp.body, "{\"error\":\"Received request: GET /a\\\"b\\\\c\\n\"}");
    let v: Value = serde_json::from_str(&resp.body).unwrap();
    assert_eq!(v["error"], "Received request: GET /a\"b\\c\n");
}

#[test]
fn vend_route_is_exact() {
    assert!(is_vend_route("POST", "/Prod/api-zhongli"));
    assert!(!is_vend_route("GET", "/Prod/api-zhongli"));
    assert!(!is_vend_route("POST", "/health"));
}

#[test]
fn vend_route_asks_for_the_configured_role() {
    match dispatch(&VendorConfig::standard(), "POST", "/Prod/api-zhongli") {
        Dispatch::AssumeRole(req) => {
            assert_eq!(req.role_arn, "arn:aws:iam::658140043938:role/api-zhongli");
            assert_eq!(req.session_name, "blog-frontend-session");
            assert_eq!(req.duration_seconds, 3600);
            assert_eq!(req.policy, api_zhongli::policy_document("storage-zhongli-dev"));
        }
        Dispatch::Respond(_) => panic!("the credential route was not routed to the vendor"),
    }
}

#[test]
fn issued_credential_is_echoed_verbatim() {
    let resp = vend_response(Ok(Some(sample_credential())));
    assert_eq!(resp.status, 200);
    assert_eq!(header(&resp, "content-type"), Some("application/json"));
    assert_eq!(
        resp.body,
        "{\"access_key_id\":\"AKIA...\",\"secret_access_key\":\"xyz\",\"session_token\":\"tok\",\"expiration\":\"2024-01-01T00:00:00Z\"}"
    );
    let v: Value = serde_json::from_str(&resp.body).unwrap();
    let obj = v.as_object().unwrap();
    assert_eq!(obj.len(), 4);
    assert_eq!(obj["access_key_id"], "AKIA...");
    assert_eq!(obj["secret_access_key"], "xyz");
    assert_eq!(obj["session_token"], "tok");
    assert_eq!(obj["expiration"], "2024-01-01T00:00:00Z");
    for key in ["access_key_id", "secret_access_key", "session_token", "expiration"] {
        assert!(!obj[key].as_str().unwrap().is_empty());
    }
}

#[test]
fn success_carries_cors_headers() {
    let resp = vend_response(Ok(Some(sample_credential())));
    assert_eq!(header(&resp, "access-control-allow-origin"), Some("*"));
    assert_eq!(header(&resp, "access-control-allow-methods"), Some("POST, OPTIONS"));
    assert_eq!(header(&resp, "access-control-allow-headers"), Some("Content-Type"));
    assert_eq!(resp.headers.len(), 4);
}

#[test]
fn credential_fields_are_escaped() {
    let mut cred = sample_credential();
    cred.session_token = "t\"o\\k".to_string();
    let resp = vend_response(Ok(Some(cred)));
    assert!(resp.body.contains("\"session_token\":\"t\\\"o\\\\k\""));
    let v: Value = serde_json::from_str(&resp.body).unwrap();
    assert_eq!(v["session_token"], "t\"o\\k");
}

#[test]
fn missing_credentials_is_an_error_response() {
    let resp = vend_response(Ok(None));
    assert_eq!(resp.status, 502);
    assert_eq!(resp.status, VEND_FAILURE_STATUS);
    assert_eq!(resp.body, "{\"error\":\"failed to obtain temporary credentials\"}");
    assert_eq!(header(&resp, "content-type"), Some("application/json"));
    assert_eq!(header(&resp, "access-control-allow-origin"), None);
    assert_eq!(resp.headers.len(), 1);
}

#[test]
fn remote_failure_hides_detail_and_credentials() {
    let detail = "AccessDenied: access_key_id AKIAXXXX session_token leaked".to_string();
    let resp = vend_response(Err(detail));
    assert!(resp.status < 200 || resp.status >= 300);
    assert_eq!(resp.status, 502);
    assert!(!resp.body.contains("AccessDenied"));
    for key in ["access_key_id", "secret_access_key", "session_token", "expiration"] {
        assert!(!resp.body.contains(key));
    }
    let v: Value = serde_json::from_str(&resp.body).unwrap();
    assert!(v["error"].is_string());
    assert_eq!(header(&resp, "access-control-allow-origin"), None);
}

#[test]
fn outcomes_are_classified() {
    match credentials_from_outcome(Ok(Some(sample_credential()))) {
        Ok(c) => assert_eq!(c.access_key_id, "AKIA..."),
        Err(_) => panic!("a bundle was refused"),
    }
    assert!(matches!(credentials_from_outcome(Ok(None)), Err(VendError::MissingCredentialsError)));
    match credentials_from_outcome(Err("Throttling".to_string())) {
        Err(VendError::AssumeRoleRpcError(d)) => assert_eq!(d, "Throttling"),
        _ => panic!("a remote failure was not reported"),
    }
}

#[test]
fn both_errors_give_the_same_response() {
    let a = vend_error_response(&VendError::MissingCredentialsError);
    let b = vend_error_response(&VendError::AssumeRoleRpcError("x".to_string()));
    assert_eq!(a.status, b.status);
    assert_eq!(a.body, b.body);
    assert_eq!(a.headers, b.headers);
}
