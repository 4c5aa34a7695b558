use firm_wallet_gateway::config::{AirwallexWebhookConfig, SocketAddress};
use firm_wallet_gateway::event::{
    deserialize_optional_string, AirwallexEventEnvelope, JsonValue, RecordedWebhookEvent,
};
use firm_wallet_gateway::recorder::RecorderLock;
use firm_wallet_gateway::response::WebhookResponse;
use firm_wallet_gateway::server::{
    AirwallexWebhookServer, AIRWALLEX_SIGNATURE_HEADER, AIRWALLEX_TIMESTAMP_HEADER,
    AIRWALLEX_WEBHOOK_PATH,
};
use firm_wallet_gateway::text::to_lower_hex;
use hmac::{Hmac, Mac};
use hyper::header::{HeaderMap, HeaderName, HeaderValue};
use serde_json::Value;

const TEST_SECRET: &str = "test-airwallex-secret";
const TEST_TIMESTAMP: &str = "1712345678000";

fn test_server() -> AirwallexWebhookServer {
    server_for(8)
}

fn server_for(max_recorded_events: usize) -> AirwallexWebhookServer {
    let address = SocketAddress::V4 {
        octets: [127, 0, 0, 1],
        port: 18081,
    };
    let config =
        AirwallexWebhookConfig::from_settings(Ok(address), Some(TEST_SECRET.to_string())).unwrap();
    AirwallexWebhookServer::new(config, max_recorded_events)
}

fn sign_body(secret: &str, timestamp: &str, body: &[u8]) -> String {
    let mut mac = Hmac::<sha2::Sha256>::new_from_slice(secret.as_bytes()).unwrap();
    mac.update(timestamp.as_bytes());
    mac.update(body);
    to_lower_hex(&mac.finalize().into_bytes())
}

fn header_map(entries: &[(&str, &str)]) -> HeaderMap<HeaderValue> {
    let mut headers = HeaderMap::new();
    for (name, value) in entries {
        headers.append(
            HeaderName::from_bytes(name.as_bytes()).unwrap(),
            HeaderValue::from_str(value).unwrap(),
        );
    }
    headers
}

fn signed_headers(signature: &str) -> HeaderMap<HeaderValue> {
    header_map(&[
        (AIRWALLEX_TIMESTAMP_HEADER, TEST_TIMESTAMP),
        (AIRWALLEX_SIGNATURE_HEADER, signature),
    ])
}

fn json_value(value: &Value) -> JsonValue {
    match value {
        Value::Null => JsonValue::Null,
        Value::Bool(flag) => JsonValue::Bool(*flag),
        Value::Number(number) => JsonValue::Number(number.to_string()),
        Value::String(text) => JsonValue::Text(text.clone()),
        Value::Array(_) => JsonValue::Array,
        Value::Object(_) => JsonValue::Object,
    }
}

fn parse_event(bytes: &Vec<u8>) -> Result<AirwallexEventEnvelope, String> {
    let value: Value = serde_json::from_slice(bytes).map_err(|error| error.to_string())?;
    let text = |field: &str| value.get(field).and_then(|v| v.as_str()).map(|v| v.to_string());
    Ok(AirwallexEventEnvelope {
        id: text("id").ok_or("missing field `id`")?,
        event_type: text("name").ok_or("missing field `event_type`")?,
        created_at: deserialize_optional_string(value.get("created_at").map(json_value)),
        request_id: text("request_id"),
    })
}

fn post(
    server: &mut AirwallexWebhookServer,
    headers: &HeaderMap<HeaderValue>,
    body: &str,
) -> WebhookResponse {
    server.handle_delivery(
        RecorderLock::Held,
        "POST",
        AIRWALLEX_WEBHOOK_PATH,
        headers,
        || Ok(body.as_bytes().to_vec()),
        |bytes: &Vec<u8>| parse_event(bytes),
    )
}

fn post_signed(server: &mut AirwallexWebhookServer, body: &str) -> WebhookResponse {
    let signature = sign_body(TEST_SECRET, TEST_TIMESTAMP, body.as_bytes());
    post(server, &signed_headers(&signature), body)
}

#[test]
fn accepts_valid_signature() {
    let mut server = test_server();
    let response = post_signed(
        &mut server,
        r#"{"id":"evt_1","name":"payment.transfer.updated","created_at":"2026-09-18T23:00:00Z","request_id":"req_1"}"#,
    );

    assert_eq!(response.status, 200);
    assert_eq!(response.body, "recorded");
    assert_eq!(
        server.recorded_events(),
        vec![RecordedWebhookEvent {
            event_id: "evt_1".to_string(),
            event_type: "payment.transfer.updated".to_string(),
            created_at: Some("2026-09-18T23:00:00Z".to_string()),
            request_id: Some("req_1".to_string()),
        }]
    );
}

#[test]
fn rejects_invalid_signature() {
    let mut server = test_server();
    let response = post(
        &mut server,
        &signed_headers("invalid-signature"),
        r#"{"id":"evt_1","name":"payment.transfer.updated"}"#,
    );

    assert_eq!(response.status, 401);
    assert_eq!(response.body, "invalid signature");
    assert!(server.recorded_events().is_empty());
}

#[test]
fn rejects_missing_signature() {
    let mut server = test_server();
    let response = post(
        &mut server,
        &header_map(&[(AIRWALLEX_TIMESTAMP_HEADER, TEST_TIMESTAMP)]),
        r#"{"id":"evt_1","name":"payment.transfer.updated"}"#,
    );

    assert_eq!(response.status, 401);
    assert_eq!(response.body, "missing signature headers");
}

#[test]
fn handles_duplicate_event_ids_idempotently() {
    let mut server = test_server();
    let request_body =
        r#"{"id":"evt_duplicate","name":"payment.transfer.updated","request_id":"req_1"}"#;

    let first_response = post_signed(&mut server, request_body);
    let second_response = post_signed(&mut server, request_body);

    assert_eq!(first_response.status, 200);
    assert_eq!(second_response.body, "duplicate");
    assert_eq!(server.recorded_events().len(), 1);
}

#[test]
fn rejects_malformed_json() {
    let mut server = test_server();
    let malformed_body = r#"{"id":"evt_bad","name":"payment.transfer.updated""#;
    let signature = sign_body(TEST_SECRET, TEST_TIMESTAMP, malformed_body.as_bytes());
    let response = post(&mut server, &signed_headers(&signature), malformed_body);

    assert_eq!(response.status, 400);
    assert_eq!(response.body, "malformed payload");
    assert!(server.recorded_events().is_empty());
}

#[test]
fn accepts_unknown_event_types() {
    let mut server = test_server();
    let response = post_signed(
        &mut server,
        r#"{"id":"evt_unknown","name":"something.completely_new","created_at":1720000000}"#,
    );

    assert_eq!(response.status, 200);
    assert_eq!(
        server.recorded_events()[0].event_type,
        "something.completely_new"
    );
    assert_eq!(
        server.recorded_events()[0].created_at,
        Some("1720000000".to_string())
    );
}

#[test]
fn verifies_signature_against_raw_body() {
    let mut server = test_server();
    let raw_body = "{\n  \"id\": \"evt_raw\",\n  \"name\": \"payment.transfer.updated\"\n}";
    let signature = sign_body(TEST_SECRET, TEST_TIMESTAMP, raw_body.as_bytes());
    let headers = signed_headers(&signature);

    let valid_response = post(&mut server, &headers, raw_body);
    let tampered_response = post(
        &mut server,
        &headers,
        r#"{"id":"evt_raw","name":"payment.transfer.updated"}"#,
    );

    assert_eq!(valid_response.status, 200);
    assert_eq!(tampered_response.status, 401);
}

#[test]
fn routes_by_method_before_path() {
    let mut server = test_server();
    let headers = HeaderMap::new();
    let mut answer = |method: &str, path: &str| {
        server.handle_delivery(
            RecorderLock::Held,
            method,
            path,
            &headers,
            || panic!("the body of a refused request is not read"),
            |_: &Vec<u8>| panic!("a refused request is not parsed"),
        )
    };

    let wrong_method = answer("GET", "/elsewhere");
    assert_eq!(wrong_method.status, 405);
    assert_eq!(wrong_method.body, "method not allowed");
    assert_eq!(wrong_method.content_type, "text/plain; charset=utf-8");
    assert_eq!(answer("post", AIRWALLEX_WEBHOOK_PATH).status, 405);

    let wrong_path = answer("POST", "/webhooks/airwallex/");
    assert_eq!(wrong_path.status, 404);
    assert_eq!(wrong_path.body, "not found");

    let unsigned = answer("POST", AIRWALLEX_WEBHOOK_PATH);
    assert_eq!(unsigned.status, 401);
    assert_eq!(unsigned.body, "missing signature headers");
}

#[test]
fn unreadable_body_is_a_bad_request() {
    let mut server = test_server();
    let response = server.handle_delivery(
        RecorderLock::Held,
        "POST",
        AIRWALLEX_WEBHOOK_PATH,
        &signed_headers("00"),
        || Err("connection reset".to_string()),
        |_: &Vec<u8>| panic!("there is nothing to parse"),
    );

    assert_eq!(response.status, 400);
    assert_eq!(response.body, "failed to read request body");
}

#[test]
fn unauthenticated_body_is_not_parsed() {
    let mut server = test_server();
    let response = server.handle_delivery(
        RecorderLock::Held,
        "POST",
        AIRWALLEX_WEBHOOK_PATH,
        &signed_headers(&"0".repeat(64)),
        || Ok(b"{}".to_vec()),
        |_: &Vec<u8>| panic!("the body is not authentic"),
    );

    assert_eq!(response.status, 401);
    assert_eq!(response.body, "invalid signature");
}

#[test]
fn poisoned_lock_fails_to_record() {
    let mut server = test_server();
    let body = r#"{"id":"evt_1","name":"payment.transfer.updated"}"#;
    let signature = sign_body(TEST_SECRET, TEST_TIMESTAMP, body.as_bytes());
    let mut deliver = |signature: &str, body: &'static str| {
        server.handle_delivery(
            RecorderLock::Poisoned,
            "POST",
            AIRWALLEX_WEBHOOK_PATH,
            &signed_headers(signature),
            || Ok(body.as_bytes().to_vec()),
            |bytes: &Vec<u8>| parse_event(bytes),
        )
    };

    let response = deliver(&signature, body);
    assert_eq!(response.status, 500);
    assert_eq!(response.body, "failed to record webhook");
    assert_eq!(deliver("wrong", body).status, 401);
    assert!(server.recorded_events().is_empty());
}

#[test]
fn same_id_is_a_duplicate_whatever_else_it_says() {
    let mut server = test_server();
    post_signed(&mut server, r#"{"id":"evt_1","name":"first"}"#);
    let response = post_signed(
        &mut server,
        r#"{"id":"evt_1","name":"second","created_at":true}"#,
    );

    assert_eq!(response.body, "duplicate");
    assert_eq!(server.recorded_events()[0].event_type, "first");
    assert_eq!(server.recorded_events()[0].created_at, None);
}

#[test]
fn forgotten_event_is_recorded_again() {
    let mut server = server_for(2);
    for id in ["a", "b", "c"] {
        let body = format!(r#"{{"id":"{}","name":"n"}}"#, id);
        assert_eq!(post_signed(&mut server, &body).body, "recorded");
    }
    assert_eq!(
        post_signed(&mut server, r#"{"id":"b","name":"n"}"#).body,
        "duplicate"
    );
    assert_eq!(
        post_signed(&mut server, r#"{"id":"a","name":"n"}"#).body,
        "recorded"
    );
    let ids: Vec<String> = server
        .recorded_events()
        .into_iter()
        .map(|event| event.event_id)
        .collect();
    assert_eq!(ids, vec!["c".to_string(), "a".to_string()]);
}

#[test]
fn first_header_of_a_name_counts() {
    let mut server = test_server();
    let body = r#"{"id":"evt_1","name":"n"}"#;
    let signature = sign_body(TEST_SECRET, TEST_TIMESTAMP, body.as_bytes());
    let headers = header_map(&[
        ("X-Timestamp", TEST_TIMESTAMP),
        ("X-Signature", &signature),
        ("X-Signature", "another"),
    ]);
    assert_eq!(post(&mut server, &headers, body).status, 200);
}

#[test]
fn steps_make_up_a_delivery() {
    let mut server = test_server();
    let body = r#"{"id":"evt_1","name":"n"}"#;
    let signature = sign_body(TEST_SECRET, TEST_TIMESTAMP, body.as_bytes());

    let signed = AirwallexWebhookServer::handle_request(
        "POST",
        AIRWALLEX_WEBHOOK_PATH,
        &signed_headers(&signature),
    )
    .unwrap();
    assert_eq!(signed.timestamp, TEST_TIMESTAMP);
    assert_eq!(signed.signature, signature);

    let payload = server
        .authenticate(signed, body.as_bytes().to_vec())
        .unwrap();
    assert_eq!(payload.raw_body(), body.as_bytes());

    let event = parse_event(payload.raw_body());
    let response = server
        .record_event(RecorderLock::Held, payload, event)
        .unwrap();
    assert_eq!(response.status, 200);
    assert_eq!(response.body, "recorded");
}

#[test]
fn missing_header_is_unauthorized_without_a_body() {
    let mut server = test_server();
    let response = server.handle_parsed_delivery(
        RecorderLock::Held,
        "POST",
        AIRWALLEX_WEBHOOK_PATH,
        &header_map(&[(AIRWALLEX_SIGNATURE_HEADER, "00")]),
        Err("connection reset".to_string()),
        Err("no body".to_string()),
    );

    assert_eq!(response.status, 401);
    assert_eq!(response.body, "missing signature headers");
}

#[test]
fn parsed_delivery_is_recorded() {
    let mut server = test_server();
    let body = r#"{"id":"evt_1","name":"n"}"#.as_bytes().to_vec();
    let headers = signed_headers(&sign_body(TEST_SECRET, TEST_TIMESTAMP, &body));
    let mut deliver = |lock: RecorderLock| {
        server.handle_parsed_delivery(
            lock,
            "POST",
            AIRWALLEX_WEBHOOK_PATH,
            &headers,
            Ok(body.clone()),
            parse_event(&body),
        )
    };

    assert_eq!(deliver(RecorderLock::Poisoned).status, 500);
    assert_eq!(deliver(RecorderLock::Held).body, "recorded");
    assert_eq!(deliver(RecorderLock::Held).body, "duplicate");
    assert_eq!(server.recorded_events().len(), 1);
}
