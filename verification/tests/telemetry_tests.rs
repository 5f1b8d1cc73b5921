use drogue_core::model::Id;
use drogue_core::openid::{AuthenticatorConfig, AuthenticatorError, ClientConfig};
use drogue_core::telemetry::{
    prepare_publish, uri_parser, EndpointError, PublishCommonOptions, PublishOptions,
};

fn segments(parts: &[&str]) -> Vec<Vec<u8>> {
    parts.iter().map(|p| p.as_bytes().to_vec()).collect()
}

#[test]
fn uri_with_channel_only() {
    let r = uri_parser(&segments(&["v1", "telemetry"])).unwrap();
    assert_eq!(r, vec!["telemetry".to_string()]);
}

#[test]
fn uri_with_subject() {
    let r = uri_parser(&segments(&["v1", "telemetry", "a", "b", "c"])).unwrap();
    assert_eq!(r, vec!["telemetry".to_string(), "a/b/c".to_string()]);
}

#[test]
fn uri_with_empty_tail_segment() {
    let r = uri_parser(&segments(&["v1", "telemetry", ""])).unwrap();
    assert_eq!(r, vec!["telemetry".to_string(), "".to_string()]);
}

#[test]
fn uri_with_wrong_version_is_refused() {
    assert!(matches!(
        uri_parser(&segments(&["v2", "telemetry"])),
        Err(EndpointError::InvalidRequest { .. })
    ));
    assert!(matches!(
        uri_parser(&segments(&["v1"])),
        Err(EndpointError::InvalidRequest { .. })
    ));
    assert!(matches!(uri_parser(&segments(&[])), Err(EndpointError::InvalidRequest { .. })));
}

#[test]
fn uri_with_invalid_bytes_is_refused() {
    let mut segs = segments(&["v1", "telemetry"]);
    segs.push(vec![0xff, 0xfe]);
    assert!(matches!(uri_parser(&segs), Err(EndpointError::InvalidRequest { .. })));
    let segs = vec![vec![0xff, 0xfe], b"telemetry".to_vec()];
    assert!(matches!(uri_parser(&segs), Err(EndpointError::InvalidRequest { .. })));
}

#[test]
fn publish_record_uses_publish_as_device() {
    let opts = PublishOptions {
        common: PublishCommonOptions {
            application: None,
            device: None,
            data_schema: Some("v2".to_string()),
        },
        publish_as: Some("devB".to_string()),
        ct: Some(10),
    };
    let p = prepare_publish(
        "app1".to_string(),
        "devA".to_string(),
        "temp".to_string(),
        Some("室外".to_string()),
        Some("text/plain".to_string()),
        opts,
    );
    assert_eq!(p.app_id, "app1");
    assert_eq!(p.device_id, "devB");
    assert_eq!(p.channel, "temp");
    assert_eq!(p.topic.as_deref(), Some("室外"));
    assert_eq!(p.data_schema.as_deref(), Some("v2"));
    assert_eq!(p.content_type.as_deref(), Some("text/plain"));
}

#[test]
fn publish_record_defaults_to_own_device() {
    let p = prepare_publish(
        "app1".to_string(),
        "devA".to_string(),
        "temp".to_string(),
        None,
        None,
        PublishOptions::default(),
    );
    assert_eq!(p.device_id, "devA");
    assert!(p.topic.is_none());
    assert!(p.data_schema.is_none());
    assert!(p.content_type.is_none());
}

#[test]
fn identities_compare_by_both_parts() {
    let a = Id::new("app".to_string(), "dev".to_string());
    let b = a.clone();
    assert!(a.same_as(&b));
    assert!(!a.same_as(&Id::new("app".to_string(), "dev2".to_string())));
    assert!(!a.same_as(&Id::new("app2".to_string(), "dev".to_string())));
}

#[test]
fn authenticator_error_text() {
    assert_eq!(AuthenticatorError::Missing.text(), "Missing authenticator instance");
    assert_eq!(AuthenticatorError::Failed.text(), "Authentication failed");
}

#[test]
fn client_config_hands_out_id_and_secret() {
    let config = AuthenticatorConfig {
        client_id: "drogue".to_string(),
        client_secret: "client-secret-value".to_string(),
        scopes: "openid profile email".to_string(),
    };
    assert_eq!(config.client_id(), "drogue");
    assert_eq!(config.client_secret(), "client-secret-value");
}
