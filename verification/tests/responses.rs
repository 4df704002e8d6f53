use sv2_ui::respond::{
    bad_gateway_response, bad_request_response, health_response, internal_error_response,
    missing_bundle_response, BodyData,
};

fn body_text(body: BodyData) -> String {
    match body {
        BodyData::Text(t) => t,
        BodyData::Bytes(_) => panic!("expected a text body"),
    }
}

#[test]
fn health_is_200_ok() {
    let plan = health_response();
    assert_eq!(plan.status, 200);
    assert!(plan.content_type.is_none());
    assert_eq!(body_text(plan.body), "ok");
}

#[test]
fn bad_gateway_is_502_with_json_error_field() {
    let plan = bad_gateway_response("connection refused");
    assert_eq!(plan.status, 502);
    assert_eq!(plan.content_type.as_deref(), Some("application/json"));
    let text = body_text(plan.body);
    let parsed: serde_json::Value = serde_json::from_str(&text).unwrap();
    assert!(parsed.get("error").is_some());
    assert!(parsed["error"] == "Service unavailable");
    assert!(parsed["details"] == "connection refused");
}

#[test]
fn bad_gateway_body_shape_is_exact() {
    let plan = bad_gateway_response("timed out");
    let text = body_text(plan.body);
    assert_eq!(text, "{\"error\": \"Service unavailable\", \"details\": \"timed out\"}");
}

#[test]
fn bad_request_is_400_plain() {
    let plan = bad_request_response();
    assert_eq!(plan.status, 400);
    assert!(plan.content_type.is_none());
    assert_eq!(body_text(plan.body), "Invalid target URL");
}

#[test]
fn internal_error_is_500_plain() {
    let plan = internal_error_response();
    assert_eq!(plan.status, 500);
    assert!(plan.content_type.is_none());
    assert_eq!(body_text(plan.body), "Failed to build proxy request");
}

#[test]
fn missing_bundle_is_404_plain_text() {
    let plan = missing_bundle_response();
    assert_eq!(plan.status, 404);
    assert_eq!(plan.content_type.as_deref(), Some("text/plain"));
    assert_eq!(body_text(plan.body), "UI assets not found");
}
