use std::sync::Arc;

use registration_server::cert_reloader::ReloadableServerConfig;
use registration_server::certificates::build_server_config;
use rustls::{ClientConfig, ClientConnection, RootCertStore, ServerConnection};

fn ca_material() -> (String, String) {
    let kp = rcgen::KeyPair::generate().unwrap();
    let mut params = rcgen::CertificateParams::new(Vec::<String>::new()).unwrap();
    params.is_ca = rcgen::IsCa::Ca(rcgen::BasicConstraints::Unconstrained);
    params
        .distinguished_name
        .push(rcgen::DnType::CommonName, "Test Factory CA");
    let cert = params.self_signed(&kp).unwrap();
    (cert.pem(), kp.serialize_pem())
}

fn server_material() -> (String, String) {
    let kp = rcgen::KeyPair::generate().unwrap();
    let params = rcgen::CertificateParams::new(vec![String::from("localhost")]).unwrap();
    let cert = params.self_signed(&kp).unwrap();
    (cert.pem(), kp.serialize_pem())
}

fn server_config_for(cert_pem: &str, key_pem: &str) -> rustls::ServerConfig {
    let (ca_pem, _) = ca_material();
    build_server_config(cert_pem.as_bytes(), key_pem.as_bytes(), ca_pem.as_bytes()).unwrap()
}

/// A client configuration that trusts exactly the given server certificate.
fn client_trusting(cert_pem: &str) -> Arc<ClientConfig> {
    let mut reader: &[u8] = cert_pem.as_bytes();
    let certs: Vec<_> = rustls_pemfile::certs(&mut reader)
        .collect::<Result<Vec<_>, _>>()
        .unwrap();
    let mut roots = RootCertStore::empty();
    for c in certs {
        roots.add(c).unwrap();
    }
    Arc::new(
        ClientConfig::builder()
            .with_root_certificates(roots)
            .with_no_client_auth(),
    )
}

/// Drives an in-memory handshake between the two connections; returns
/// whether it completed on both sides.
fn handshake_completes(client: &mut ClientConnection, server: &mut ServerConnection) -> bool {
    for _ in 0..20 {
        if !client.is_handshaking() && !server.is_handshaking() {
            return true;
        }
        let mut to_server = Vec::new();
        while client.wants_write() {
            client.write_tls(&mut to_server).unwrap();
        }
        let mut rd: &[u8] = &to_server;
        while !rd.is_empty() {
            if server.read_tls(&mut rd).is_err() {
                return false;
            }
        }
        if server.process_new_packets().is_err() {
            return false;
        }
        let mut to_client = Vec::new();
        while server.wants_write() {
            server.write_tls(&mut to_client).unwrap();
        }
        let mut rd: &[u8] = &to_client;
        while !rd.is_empty() {
            if client.read_tls(&mut rd).is_err() {
                return false;
            }
        }
        if client.process_new_packets().is_err() {
            return false;
        }
    }
    !client.is_handshaking() && !server.is_handshaking()
}

fn try_handshake(server_config: Arc<rustls::ServerConfig>, client_config: Arc<ClientConfig>) -> bool {
    let name = rustls::pki_types::ServerName::try_from("localhost").unwrap();
    let mut client = ClientConnection::new(client_config, name).unwrap();
    let mut server = ServerConnection::new(server_config).unwrap();
    handshake_completes(&mut client, &mut server)
}

#[test]
fn built_snapshot_carries_a_handshake() {
    let (cert_pem, key_pem) = server_material();
    let config = server_config_for(&cert_pem, &key_pem);
    // a client presenting no certificate is allowed through the handshake
    assert!(try_handshake(Arc::new(config), client_trusting(&cert_pem)));
}

#[test]
fn rotated_certificate_serves_new_connections_and_spares_old_ones() {
    let (cert_a, key_a) = server_material();
    let (cert_b, key_b) = server_material();

    let cell = ReloadableServerConfig::new(server_config_for(&cert_a, &key_a));
    // a connection already in progress keeps its snapshot
    let in_flight = cell.get();

    // the certificate files are rewritten and the debounced reload swaps
    cell.update(server_config_for(&cert_b, &key_b));

    // a new connection uses the updated server certificate
    assert!(try_handshake(cell.get(), client_trusting(&cert_b)));
    // it no longer serves the old certificate
    assert!(!try_handshake(cell.get(), client_trusting(&cert_a)));
    // the in-flight connection's snapshot still carries a handshake
    assert!(try_handshake(in_flight, client_trusting(&cert_a)));
}

#[test]
fn failed_rebuild_keeps_serving_the_old_material() {
    let (cert_a, key_a) = server_material();
    let cell = ReloadableServerConfig::new(server_config_for(&cert_a, &key_a));

    // a bad rotation: mismatched key and cert never produce a snapshot
    let (cert_b, _) = server_material();
    let (_, other_key) = server_material();
    let (ca_pem, _) = ca_material();
    let failed =
        build_server_config(cert_b.as_bytes(), other_key.as_bytes(), ca_pem.as_bytes()).ok();
    assert!(failed.is_none());
    cell.apply_reload(failed);

    // subsequent connections keep succeeding with the old material
    assert!(try_handshake(cell.get(), client_trusting(&cert_a)));
}
