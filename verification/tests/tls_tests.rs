use registration_server::cert_reloader::ReloadableServerConfig;
use registration_server::certificates::{
    build_server_config, read_server_certificate, read_signing_ca,
    read_trusted_client_certificates_ca, CertStoreError,
};

fn ca_material() -> (String, String) {
    let kp = rcgen::KeyPair::generate().unwrap();
    let mut params = rcgen::CertificateParams::new(Vec::<String>::new()).unwrap();
    params.is_ca = rcgen::IsCa::Ca(rcgen::BasicConstraints::Unconstrained);
    params
        .distinguished_name
        .push(rcgen::DnType::CommonName, "Test Factory CA");
    let cert = params.self_signed(&kp).unwrap();
    (cert.pem(), kp.serialize_pem())
}

fn server_material() -> (String, String) {
    let kp = rcgen::KeyPair::generate().unwrap();
    let params = rcgen::CertificateParams::new(vec![String::from("localhost")]).unwrap();
    let cert = params.self_signed(&kp).unwrap();
    (cert.pem(), kp.serialize_pem())
}

#[test]
fn valid_material_builds_a_server_config() {
    let (ca_pem, _) = ca_material();
    let (cert_pem, key_pem) = server_material();
    let r = build_server_config(cert_pem.as_bytes(), key_pem.as_bytes(), ca_pem.as_bytes());
    assert!(r.is_ok());
}

#[test]
fn mismatched_key_and_cert_is_rejected() {
    let (ca_pem, _) = ca_material();
    let (cert_pem, _) = server_material();
    let (_, other_key_pem) = server_material();
    let r = build_server_config(cert_pem.as_bytes(), other_key_pem.as_bytes(), ca_pem.as_bytes());
    assert_eq!(r.unwrap_err(), CertStoreError::ConfigRejected);
}

#[test]
fn empty_trust_store_is_rejected() {
    let (cert_pem, key_pem) = server_material();
    let r = build_server_config(cert_pem.as_bytes(), key_pem.as_bytes(), b"");
    assert_eq!(r.unwrap_err(), CertStoreError::ClientVerifier);
}

#[test]
fn key_file_without_a_key_is_a_distinct_failure() {
    let (cert_pem, _) = server_material();
    let r = read_server_certificate(cert_pem.as_bytes(), b"no key in here");
    assert_eq!(r.unwrap_err(), CertStoreError::ServerKeyMissing);
}

#[test]
fn trust_store_collects_every_certificate() {
    let (ca1, _) = ca_material();
    let (ca2, _) = ca_material();
    let both = format!("{ca1}{ca2}");
    let store = read_trusted_client_certificates_ca(both.as_bytes()).unwrap();
    assert_eq!(store.len(), 2);
}

#[test]
fn garbage_trust_anchor_is_rejected() {
    // a syntactically valid PEM block whose DER is not a certificate
    let bogus = "-----BEGIN CERTIFICATE-----\nAAAA\n-----END CERTIFICATE-----\n";
    let r = read_trusted_client_certificates_ca(bogus.as_bytes());
    assert_eq!(r.unwrap_err(), CertStoreError::TrustAnchorRejected);
}

#[test]
fn signing_ca_loads_from_valid_material() {
    let (ca_pem, ca_key_pem) = ca_material();
    assert!(read_signing_ca(ca_pem.as_bytes(), ca_key_pem.as_bytes()).is_ok());
}

#[test]
fn signing_ca_missing_certificate_is_reported() {
    let (_, ca_key_pem) = ca_material();
    let r = read_signing_ca(b"", ca_key_pem.as_bytes());
    assert_eq!(r.unwrap_err(), CertStoreError::SigningCaMissing);
}

#[test]
fn signing_ca_missing_key_is_reported() {
    let (ca_pem, _) = ca_material();
    let r = read_signing_ca(ca_pem.as_bytes(), b"");
    assert_eq!(r.unwrap_err(), CertStoreError::SigningKeyMissing);
}

fn fresh_config() -> rustls::ServerConfig {
    let (ca_pem, _) = ca_material();
    let (cert_pem, key_pem) = server_material();
    build_server_config(cert_pem.as_bytes(), key_pem.as_bytes(), ca_pem.as_bytes()).unwrap()
}

#[test]
fn get_returns_the_same_snapshot_until_updated() {
    let cell = ReloadableServerConfig::new(fresh_config());
    let a = cell.get();
    let b = cell.get();
    assert!(std::sync::Arc::ptr_eq(&a, &b));
}

#[test]
fn update_swaps_for_new_readers_and_spares_old_handles() {
    let cell = ReloadableServerConfig::new(fresh_config());
    let shared = cell.shared();
    let before = shared.get();
    cell.update(fresh_config());
    let after = shared.get();
    assert!(!std::sync::Arc::ptr_eq(&before, &after));
    // the old snapshot stays usable for an in-flight connection
    assert!(std::sync::Arc::strong_count(&before) >= 1);
}

#[test]
fn failed_rebuild_leaves_the_prior_snapshot_active() {
    let cell = ReloadableServerConfig::new(fresh_config());
    let before = cell.get();
    let failed: Option<rustls::ServerConfig> = None;
    cell.apply_reload(failed);
    let after = cell.get();
    assert!(std::sync::Arc::ptr_eq(&before, &after));
}

#[test]
fn successful_rebuild_replaces_the_snapshot() {
    let cell = ReloadableServerConfig::new(fresh_config());
    let before = cell.get();
    cell.apply_reload(Some(fresh_config()));
    let after = cell.get();
    assert!(!std::sync::Arc::ptr_eq(&before, &after));
}

#[test]
fn clone_shares_the_same_cell() {
    let cell = ReloadableServerConfig::new(fresh_config());
    let cloned = cell.clone();
    cell.update(fresh_config());
    let a = cell.get();
    let b = cloned.get();
    assert!(std::sync::Arc::ptr_eq(&a, &b));
}
