use std::path::Path;

use migration_tls::auth::{
    client_auth_config, join_path, ClientAuthConfig, CA_CERT_FILE, CLIENT_CERT_FILE,
    CLIENT_KEY_FILE, SERVER_CERT_FILE, SERVER_KEY_FILE,
};
use migration_tls::{MigratableError, TlsError};

fn test_dir(name: &str) -> String {
    format!("/tmp/cloud-hypervisor-tls-test-{name}")
}

fn std_join(dir: &str, name: &str) -> Vec<u8> {
    Path::new(dir).join(name).as_os_str().as_encoded_bytes().to_vec()
}

#[test]
fn client_auth_config_uses_normal_tls_without_client_credentials() {
    let dir = test_dir("no-client-credentials");

    assert_eq!(
        client_auth_config(dir.as_bytes(), false, false).unwrap(),
        ClientAuthConfig::NormalTls
    );
}

#[test]
fn client_auth_config_uses_mtls_with_client_credentials() {
    let dir = test_dir("client-credentials");
    let cert_path = std_join(&dir, CLIENT_CERT_FILE);
    let key_path = std_join(&dir, CLIENT_KEY_FILE);

    assert_eq!(
        client_auth_config(dir.as_bytes(), true, true).unwrap(),
        ClientAuthConfig::MutualTls {
            cert_path,
            key_path
        }
    );
}

#[test]
fn client_auth_config_rejects_partial_client_credentials() {
    let dir = test_dir("partial-client-credentials");

    assert!(matches!(
        client_auth_config(dir.as_bytes(), true, false),
        Err(MigratableError::Tls(
            TlsError::IncompleteClientAuthConfig { .. }
        ))
    ));
}

#[test]
fn a_key_without_a_certificate_is_refused_with_both_paths() {
    match client_auth_config(b"/etc/tls", false, true) {
        Err(MigratableError::Tls(TlsError::IncompleteClientAuthConfig {
            cert_path,
            key_path,
        })) => {
            assert_eq!(cert_path, b"/etc/tls/client-cert.pem");
            assert_eq!(key_path, b"/etc/tls/client-key.pem");
        }
        other => panic!("unexpected: {other:?}"),
    }
}

#[test]
fn a_certificate_without_a_key_is_refused_with_both_paths() {
    match client_auth_config(b"certs/", true, false) {
        Err(MigratableError::Tls(TlsError::IncompleteClientAuthConfig {
            cert_path,
            key_path,
        })) => {
            assert_eq!(cert_path, b"certs/client-cert.pem");
            assert_eq!(key_path, b"certs/client-key.pem");
        }
        other => panic!("unexpected: {other:?}"),
    }
}

#[test]
fn paths_are_joined_as_std_joins_them() {
    let names = [
        CA_CERT_FILE,
        CLIENT_CERT_FILE,
        CLIENT_KEY_FILE,
        SERVER_CERT_FILE,
        SERVER_KEY_FILE,
        "",
        "/absolute",
        "a/b",
        "../up",
        "\u{fc}ml\u{e4}ut",
    ];
    for dir in ["", "/", "//", ".", "dir", "dir/", "dir//", "/a/b", "/\u{e9}t\u{e9}"] {
        for name in names {
            assert_eq!(join_path(dir.as_bytes(), name), std_join(dir, name));
        }
    }
}

#[test]
fn directories_need_not_be_text() {
    assert_eq!(join_path(&[0x2f, 0xff, 0xfe], CA_CERT_FILE), b"/\xff\xfe/ca-cert.pem");
}
