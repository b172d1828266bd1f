//! Tests for configuration handling and relay construction.

use sslrelay::{
    CallbackRet, HandlerCallbacks, RelayConfig, SSLRelay, TCPDataType, TLSConfig,
};

#[derive(Clone)]
struct Handler;

impl HandlerCallbacks for Handler {}

fn base_config(down: TCPDataType, tls: TLSConfig) -> RelayConfig {
    RelayConfig {
        downstream_data_type: down,
        upstream_data_type: TCPDataType::RAW,
        bind_host: "127.0.0.1".to_string(),
        bind_port: "0".to_string(),
        remote_host: "127.0.0.1".to_string(),
        remote_port: "9000".to_string(),
        tls_config: tls,
    }
}

#[test]
fn raw_downstream_needs_no_tls_material() {
    let c = base_config(TCPDataType::RAW, TLSConfig::NONE);
    assert!(c.check());
}

#[test]
fn tls_downstream_without_material_is_rejected() {
    let c = base_config(TCPDataType::TLS, TLSConfig::NONE);
    assert!(!c.check());
}

#[test]
fn tls_downstream_with_material_is_accepted() {
    let c = base_config(
        TCPDataType::TLS,
        TLSConfig::FILE {
            certificate_path: "./tls.crt".to_string(),
            private_key_path: "./tls.key".to_string(),
        },
    );
    assert!(c.check());
    let c = base_config(
        TCPDataType::TLS,
        TLSConfig::DATA { certificate: vec![1, 2], private_key: vec![3, 4] },
    );
    assert!(c.check());
}

#[test]
fn new_relay_keeps_config_and_handler() {
    let relay = SSLRelay::new(Handler, base_config(TCPDataType::RAW, TLSConfig::NONE));
    assert_eq!(relay.config().bind_host, "127.0.0.1");
    assert_eq!(relay.config().remote_port, "9000");
    assert!(relay.handler().is_some());
}

#[test]
fn default_callbacks_relay_unchanged() {
    let mut h = Handler;
    match h.ds_b_callback(b"abc".to_vec()) {
        CallbackRet::Relay(d) => assert_eq!(d, b"abc".to_vec()),
        other => panic!("default downstream callback must relay, got {:?}", other),
    }
    match h.us_b_callback(b"xyz".to_vec()) {
        CallbackRet::Relay(d) => assert_eq!(d, b"xyz".to_vec()),
        other => panic!("default upstream callback must relay, got {:?}", other),
    }
    h.ds_nb_callback(b"observed".to_vec());
    h.us_nb_callback(b"observed".to_vec());
}
