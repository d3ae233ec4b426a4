use remote_exec_broker::broker_tls::{disabled, enabled};
use remote_exec_broker::install_crypto_provider;
use remote_exec_broker::port_forward::generation::StreamIdAllocator;

#[test]
fn stream_id_allocator_rotates_before_wrap() {
    let mut allocator = StreamIdAllocator::new_odd();
    allocator.set_next_for_test(u32::MAX - 2);
    assert_eq!(allocator.next().unwrap(), u32::MAX - 2);
    assert!(allocator.next().is_none());
    assert!(allocator.needs_generation_rotation());
}

#[test]
fn broker_http_urls_remain_supported() {
    disabled::ensure_broker_url_supported("http://127.0.0.1:8787/mcp").unwrap();
    enabled::ensure_broker_url_supported("http://127.0.0.1:8787/mcp").unwrap();
}

#[test]
fn broker_https_urls_are_supported_when_feature_enabled() {
    enabled::ensure_broker_url_supported("https://broker.example.com/mcp").unwrap();
}

#[test]
fn broker_https_urls_are_rejected_when_feature_disabled() {
    let err = disabled::ensure_broker_url_supported("https://broker.example.com/mcp").unwrap_err();
    assert!(
        err.contains("https:// support requires the remote-exec-broker `broker-tls` Cargo feature"),
        "unexpected error: {err}",
    );
}

#[test]
fn https_rejection_names_the_url() {
    let err = disabled::ensure_broker_url_supported("https://b/mcp").unwrap_err();
    assert_eq!(
        err,
        "broker URL `https://b/mcp` uses https://; https:// support requires the remote-exec-broker `broker-tls` Cargo feature"
    );
}

#[test]
fn crypto_provider_installs_without_tls_support() {
    assert!(install_crypto_provider().is_ok());
    assert!(disabled::install_crypto_provider().is_ok());
}

#[test]
fn crypto_provider_outcome_fails_only_when_nothing_is_installed() {
    assert!(enabled::crypto_provider_outcome(true, false, false).is_ok());
    assert!(enabled::crypto_provider_outcome(false, true, false).is_ok());
    assert!(enabled::crypto_provider_outcome(false, false, true).is_ok());
    assert_eq!(
        enabled::crypto_provider_outcome(false, false, false).unwrap_err(),
        "failed to install rustls ring crypto provider"
    );
}

#[test]
fn stream_ids_are_odd_and_increasing() {
    let mut allocator = StreamIdAllocator::new_odd();
    assert_eq!(allocator.next(), Some(1));
    assert_eq!(allocator.next(), Some(3));
    assert_eq!(allocator.next(), Some(5));
    assert!(!allocator.needs_generation_rotation());
    let mut from_nine = StreamIdAllocator::new_odd_from(9);
    assert_eq!(from_nine.next(), Some(9));
    assert_eq!(from_nine.next(), Some(11));
}

#[test]
fn pinned_leaf_must_match_exactly() {
    let pinned = vec![vec![1u8, 2, 3], vec![4u8, 5]];
    assert!(enabled::check_pinned_leaf(&pinned, &[4, 5]).is_ok());
    assert_eq!(
        enabled::check_pinned_leaf(&pinned, &[4, 5, 6]).unwrap_err(),
        "pinned server certificate mismatch"
    );
    assert!(enabled::check_pinned_certs_present(&pinned).is_ok());
    assert_eq!(
        enabled::check_pinned_certs_present(&Vec::new()).unwrap_err(),
        "pinned_server_cert_pem must contain at least one certificate"
    );
}

#[test]
fn pinned_certs_load_from_pem() {
    let pem = "-----BEGIN CERTIFICATE-----\nAQID\n-----END CERTIFICATE-----\n";
    let certs = enabled::load_pinned_certs(pem.as_bytes()).unwrap();
    assert_eq!(certs, vec![vec![1u8, 2, 3]]);
    assert!(enabled::load_pinned_certs(b"no pem here").unwrap().is_empty());
}
