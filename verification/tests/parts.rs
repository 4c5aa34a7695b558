use firm_wallet_gateway::config::{
    server_bind_target, webhook_bind_target, AirwallexWebhookConfig, ConfigError, SocketAddress,
};
use firm_wallet_gateway::event::{
    deserialize_optional_string, AirwallexEventEnvelope, JsonValue,
};
use firm_wallet_gateway::headers::read_header;
use firm_wallet_gateway::recorder::{
    BoundedWebhookRecorder, RecordOutcome, RecorderLock,
};
use firm_wallet_gateway::response::{RequestError, WebhookError};
use firm_wallet_gateway::server::{admit_request, AirwallexWebhookServer};
use firm_wallet_gateway::signature::{signature_matches, verify_signature};
use firm_wallet_gateway::text::{same_text, to_lower_hex};
use hyper::header::{HeaderMap, HeaderName, HeaderValue};

const JEFE_TAG: &str = "5bdcc146bf60754e6a042426089575c75a003f089d2739839dec58b964ec3843";

fn address() -> SocketAddress {
    SocketAddress::V4 {
        octets: [127, 0, 0, 1],
        port: 18081,
    }
}

fn event(id: &str) -> AirwallexEventEnvelope {
    AirwallexEventEnvelope {
        id: id.to_string(),
        event_type: "payment.transfer.updated".to_string(),
        created_at: None,
        request_id: Some("req".to_string()),
    }
}

fn ids(recorder: &BoundedWebhookRecorder) -> Vec<String> {
    recorder
        .recorded_events()
        .into_iter()
        .map(|event| event.event_id)
        .collect()
}

#[test]
fn hex_has_two_lower_case_digits_for_each_byte() {
    assert_eq!(to_lower_hex(&[]), "");
    assert_eq!(to_lower_hex(&[0x00, 0x0f, 0xa0, 0xff, 0x19]), "000fa0ff19");
}

#[test]
fn signature_is_the_hmac_of_timestamp_and_body() {
    let verify = |signature: &str| {
        verify_signature("Jefe", "what do ya want ", b"for nothing?", signature)
    };
    assert!(verify(JEFE_TAG).is_ok());
    assert!(verify(&JEFE_TAG.to_uppercase()).is_ok());
    assert!(verify(&format!(" \t\u{3000}{}\n", JEFE_TAG)).is_ok());
    assert!(matches!(verify(""), Err(WebhookError::InvalidSignature)));
    assert!(matches!(verify(&JEFE_TAG[..63]), Err(WebhookError::InvalidSignature)));
    assert!(matches!(verify(&JEFE_TAG.replace('5', "4")), Err(WebhookError::InvalidSignature)));
    assert!(verify_signature("jefe", "what do ya want ", b"for nothing?", JEFE_TAG).is_err());
    assert!(verify_signature("Jefe", "what do ya want", b"for nothing?", JEFE_TAG).is_err());
    assert!(verify_signature("Jefe", "", b"what do ya want for nothing?", JEFE_TAG).is_ok());
}

#[test]
fn signature_matches_the_digits_of_the_tag() {
    assert!(signature_matches(&[0xab, 0x01], "AB01"));
    assert!(signature_matches(&[0xab, 0x01], "\u{a0}aB01 "));
    assert!(!signature_matches(&[0xab, 0x01], "ab02"));
    assert!(!signature_matches(&[0xab, 0x01], "ab 01"));
    assert!(!signature_matches(&[0xab, 0x01], "ab0"));
    assert!(signature_matches(&[], " "));
}

#[test]
fn recorder_keeps_the_newest_events() {
    let mut recorder = BoundedWebhookRecorder::new(3);
    for id in ["a", "b", "c", "d", "e"] {
        assert_eq!(
            recorder.record(RecorderLock::Held, event(id)).unwrap(),
            RecordOutcome::Recorded
        );
    }
    assert_eq!(ids(&recorder), ["c", "d", "e"]);
    assert_eq!(
        recorder.record(RecorderLock::Held, event("c")).unwrap(),
        RecordOutcome::Duplicate
    );
    assert_eq!(ids(&recorder), ["c", "d", "e"]);
    assert_eq!(
        recorder.record(RecorderLock::Held, event("a")).unwrap(),
        RecordOutcome::Recorded
    );
    assert_eq!(ids(&recorder), ["d", "e", "a"]);
}

#[test]
fn event_is_known_while_fewer_than_the_capacity_followed() {
    let mut recorder = BoundedWebhookRecorder::new(3);
    for id in ["x", "a", "b", "c"] {
        recorder.record(RecorderLock::Held, event(id)).unwrap();
    }
    assert_eq!(
        recorder.record(RecorderLock::Held, event("a")).unwrap(),
        RecordOutcome::Duplicate
    );
    recorder.record(RecorderLock::Held, event("d")).unwrap();
    assert_eq!(
        recorder.record(RecorderLock::Held, event("a")).unwrap(),
        RecordOutcome::Recorded
    );
}

#[test]
fn recorder_has_room_for_one_event_at_least() {
    let mut recorder = BoundedWebhookRecorder::new(0);
    assert!(recorder.recorded_events().is_empty());
    recorder.record(RecorderLock::Held, event("a")).unwrap();
    assert_eq!(ids(&recorder), ["a"]);
    recorder.record(RecorderLock::Held, event("b")).unwrap();
    assert_eq!(ids(&recorder), ["b"]);
}

#[test]
fn recorder_copies_the_event() {
    let mut recorder = BoundedWebhookRecorder::new(1);
    recorder.record(RecorderLock::Held, event("a")).unwrap();
    let recorded = &recorder.recorded_events()[0];
    assert_eq!(recorded.event_type, "payment.transfer.updated");
    assert_eq!(recorded.created_at, None);
    assert_eq!(recorded.request_id, Some("req".to_string()));
    assert_eq!(recorded.clone(), *recorded);
}

#[test]
fn poisoned_recorder_reports_persistence() {
    let mut recorder = BoundedWebhookRecorder::new(1);
    match recorder.record(RecorderLock::Poisoned, event("a")) {
        Err(WebhookError::Persistence(detail)) => {
            assert_eq!(detail, "webhook recorder lock poisoned")
        }
        _ => panic!("the lock was not had"),
    }
    assert!(recorder.recorded_events().is_empty());
}

#[test]
fn outcomes_have_a_word() {
    assert_eq!(RecordOutcome::Recorded.as_str(), "recorded");
    assert_eq!(RecordOutcome::Duplicate.as_str(), "duplicate");
}

#[test]
fn scalars_are_read_as_text() {
    let read = |value: JsonValue| deserialize_optional_string(Some(value));
    assert_eq!(deserialize_optional_string(None), None);
    assert_eq!(read(JsonValue::Null), None);
    assert_eq!(read(JsonValue::Text("x".to_string())), Some("x".to_string()));
    assert_eq!(read(JsonValue::Number("12.5".to_string())), Some("12.5".to_string()));
    assert_eq!(read(JsonValue::Bool(true)), Some("true".to_string()));
    assert_eq!(read(JsonValue::Bool(false)), Some("false".to_string()));
    assert_eq!(read(JsonValue::Array), None);
    assert_eq!(read(JsonValue::Object), None);
}

#[test]
fn header_is_read_where_it_is_text() {
    let mut headers = HeaderMap::new();
    let mut put = |name: &str, value: &[u8]| {
        headers.append(
            HeaderName::from_bytes(name.as_bytes()).unwrap(),
            HeaderValue::from_bytes(value).unwrap(),
        );
    };
    put("x-plain", b"first");
    put("x-plain", b"second");
    put("x-spaced", b"a\tb c~");
    put("x-latin", b"caf\xe9");
    put("x-empty", b"");
    put(&"x-long-".repeat(20), b"long");

    assert_eq!(read_header(&headers, "x-plain"), Some("first".to_string()));
    assert_eq!(read_header(&headers, "X-PLAIN"), Some("first".to_string()));
    assert_eq!(read_header(&headers, "x-spaced"), Some("a\tb c~".to_string()));
    assert_eq!(read_header(&headers, "x-latin"), None);
    assert_eq!(read_header(&headers, "x-empty"), Some(String::new()));
    assert_eq!(read_header(&headers, "x-other"), None);
    assert_eq!(read_header(&headers, &"X-Long-".repeat(20)), Some("long".to_string()));
    assert_eq!(read_header(&headers, ""), None);
    assert_eq!(read_header(&headers, "x plain"), None);
}

#[test]
fn admission_names_the_first_fault() {
    let some = |text: &str| Some(text.to_string());
    let path = "/webhooks/airwallex";
    assert!(matches!(admit_request("PUT", "/", None, None), Err(RequestError::MethodNotAllowed)));
    assert!(matches!(admit_request("POST", "/", None, None), Err(RequestError::NotFound)));
    assert!(matches!(admit_request("POST", path, None, None), Err(RequestError::MissingTimestamp)));
    assert!(matches!(
        admit_request("POST", path, some("1"), None),
        Err(RequestError::MissingSignature)
    ));
    let signed = admit_request("POST", path, some("1"), some("2")).unwrap();
    assert_eq!((signed.timestamp.as_str(), signed.signature.as_str()), ("1", "2"));
}

#[test]
fn errors_are_answered_and_worded() {
    let answer = WebhookError::Persistence("disk".to_string());
    assert_eq!(answer.message(), "failed to record webhook: disk");
    assert_eq!(answer.into_response().status, 500);
    let answer = WebhookError::MalformedPayload("EOF".to_string());
    assert_eq!(answer.message(), "malformed payload: EOF");
    assert_eq!(answer.into_response().status, 400);
    let answer = WebhookError::InvalidSignature;
    assert_eq!(answer.message(), "missing or invalid webhook signature");
    assert_eq!(answer.into_response().body, "invalid signature");
    assert_eq!(RequestError::MissingTimestamp.into_response().status, 401);
}

#[test]
fn bind_targets_have_defaults() {
    assert_eq!(webhook_bind_target(None, None), "127.0.0.1:18081");
    assert_eq!(
        webhook_bind_target(Some("0.0.0.0".to_string()), Some("80".to_string())),
        "0.0.0.0:80"
    );
    assert_eq!(webhook_bind_target(None, Some(String::new())), "127.0.0.1:");
    assert_eq!(server_bind_target(None), "0.0.0.0:20221");
    assert_eq!(server_bind_target(Some("9".to_string())), "0.0.0.0:9");
}

#[test]
fn secret_must_be_configured() {
    let secret = |text: &str| {
        AirwallexWebhookConfig::from_settings(Ok(address()), Some(text.to_string()))
    };
    assert!(matches!(secret(""), Err(ConfigError::MissingWebhookSecret)));
    assert!(matches!(secret(" \t\r\n\u{2003}"), Err(ConfigError::MissingWebhookSecret)));
    assert!(matches!(
        AirwallexWebhookConfig::from_settings(Ok(address()), None),
        Err(ConfigError::MissingWebhookSecret)
    ));
    let config = secret(" s ").unwrap();
    assert_eq!(config.clone().bind_address(), address());
    assert_eq!(
        ConfigError::MissingWebhookSecret.message(),
        "AIRWALLEX_WEBHOOK_SECRET must be configured"
    );
}

#[test]
fn bad_address_is_reported_first() {
    let bad_address = Err("invalid socket address syntax".to_string());
    match AirwallexWebhookServer::from_settings(bad_address, None) {
        Err(error) => assert_eq!(
            error.message(),
            "Invalid Airwallex webhook bind address: invalid socket address syntax"
        ),
        Ok(_) => panic!("there is no address"),
    }
    let server =
        AirwallexWebhookServer::from_settings(Ok(address()), Some("s".to_string())).unwrap();
    assert_eq!(server.bind_address(), address());
    assert!(server.recorded_events().is_empty());
}

#[test]
fn texts_are_compared_by_their_characters() {
    assert!(same_text("", ""));
    assert!(same_text("POST", "POST"));
    assert!(!same_text("POST", "POSt"));
    assert!(!same_text("POST", "POS"));
    assert!(same_text("é", "\u{e9}"));
}
