use apm::attrs::{AttrBag, AttrValue};
use apm::config::Config;
use apm::metadata::batch_labels;
use apm::model::Metadata;
use apm::service::Service;

#[test]
fn test_metadata_new() {
    let config = Config::new("http://apm:8200".to_string()).with_service(Service::new(
        Some("my-service".to_string()),
        Some("1.2.3".to_string()),
        Some("production".to_string()),
        None,
        None,
        None,
        None,
    ));
    let meta = Metadata::new(config, None, None);
    assert_eq!(meta.service.name, "my-service");
    assert_eq!(meta.service.version.as_deref(), Some("1.2.3"));
    assert_eq!(meta.service.environment.as_deref(), Some("production"));
    assert_eq!(meta.service.agent.name, "otlp");
    assert_eq!(meta.service.agent.version, "unknown");
    assert!(meta.labels.is_none());
}

#[test]
fn test_batch_labels_empty_bag() {
    let bag = AttrBag::new();
    assert!(batch_labels(&bag, "INFO".to_string(), "t".to_string()).is_none());
}

#[test]
fn test_batch_labels_stamp_level_and_target() {
    let mut bag = AttrBag::new();
    bag.insert("custom".to_string(), AttrValue::Str("v".to_string()));
    let labels = batch_labels(&bag, "ERROR".to_string(), "mymod".to_string()).unwrap();
    assert_eq!(labels.len(), 3);
    assert!(labels.iter().any(|(k, v)| k == "custom" && *v == AttrValue::Str("v".to_string())));
    assert!(labels.iter().any(|(k, v)| k == "level" && *v == AttrValue::Str("ERROR".to_string())));
    assert!(
        labels.iter().any(|(k, v)| k == "target" && *v == AttrValue::Str("mymod".to_string()))
    );
}

#[test]
fn test_create_metadata_attaches_labels() {
    let config = Config::new("http://apm:8200".to_string()).with_service(Service::new(
        Some("svc".to_string()),
        None,
        None,
        None,
        None,
        None,
        None,
    ));
    let meta = Metadata::new(config, None, None);
    let mut bag = AttrBag::new();
    bag.insert("leftover".to_string(), AttrValue::I64(1));
    let stamped = meta.create_metadata(&bag, "WARN".to_string(), "m".to_string());
    assert_eq!(stamped.service.name, "svc");
    let labels = stamped.labels.unwrap();
    assert!(labels.iter().any(|(k, v)| k == "leftover" && *v == AttrValue::I64(1)));
    assert!(labels.iter().any(|(k, v)| k == "level" && *v == AttrValue::Str("WARN".to_string())));
}

#[test]
fn test_config_builders() {
    let config = Config::new("http://apm:8200".to_string())
        .allow_invalid_certificates(true)
        .with_root_cert_path("/tmp/ca.pem".to_string())
        .with_ignore_urls("^/health$".to_string());
    assert_eq!(config.apm_address, "http://apm:8200");
    assert!(config.allow_invalid_certs);
    assert_eq!(config.root_cert_path.as_deref(), Some("/tmp/ca.pem"));
    assert_eq!(config.ignore_urls.as_deref(), Some("^/health$"));
}
