use apm::client::{auth_header_value, batch_document, envelope_line, intake_url, EnvelopeKind};
use apm::config::{ApiKey, Authorization};

#[test]
fn test_envelope_line() {
    let line = envelope_line(&EnvelopeKind::Transaction, "{\"id\":\"1\"}");
    assert_eq!(line, "{\"transaction\":{\"id\":\"1\"}}\n");
}

#[test]
fn test_batch_document() {
    let doc = batch_document("{\"service\":{}}", &EnvelopeKind::Span, "{\"id\":\"2\"}");
    assert_eq!(doc, "{\"metadata\":{\"service\":{}}}\n{\"span\":{\"id\":\"2\"}}\n");
}

#[test]
fn test_metricset_envelope() {
    let doc = batch_document(
        "{\"service\":{}}",
        &EnvelopeKind::Metricset,
        "{\"samples\":{\"system.memory.total\":{\"value\":1.0}}}",
    );
    assert!(doc.contains("{\"metricset\":{\"samples\""));
    assert_eq!(doc.lines().count(), 2);
}

#[test]
fn test_intake_url() {
    assert_eq!(intake_url("http://apm:8200"), "http://apm:8200/intake/v2/events");
}

#[test]
fn test_bearer_auth_header() {
    let auth = Authorization::SecretToken("SECRET-REDACTED".to_string());
    assert_eq!(auth_header_value(&auth), "Bearer SECRET-REDACTED");
}

#[test]
fn test_api_key_auth_header() {
    // base64("id:key") with the standard alphabet and no padding.
    let auth = Authorization::ApiKey(ApiKey::new("id".to_string(), "key".to_string()));
    assert_eq!(auth_header_value(&auth), "ApiKey aWQ6a2V5");
}
