//! Certificate material: PEM decoding and TLS server configuration building.
//!
//! The filesystem reads stay outside this crate; these functions take the
//! PEM file contents as bytes and do everything after the read: decoding
//! the blocks, collecting trust anchors, and building the server
//! configuration that requests, but does not require, a client certificate.

use vstd::prelude::*;

verus! {

use std::sync::Arc;
use crate::csr::ca_cert_usable;
use crate::csr::issuer_from_ca_der;
use crate::csr::keypair_accepts;
use crate::csr::keypair_from_der;
use rcgen::Issuer;
use rcgen::KeyPair;
use rustls::RootCertStore;
use rustls::ServerConfig;
use rustls_pki_types::CertificateDer;
use rustls_pki_types::PrivateKeyDer;

#[verifier::external_type_specification]
#[verifier::external_body]
pub struct ExCertificateDer<'a>(CertificateDer<'a>);

#[verifier::external_type_specification]
#[verifier::external_body]
pub struct ExPrivateKeyDer<'a>(PrivateKeyDer<'a>);

#[verifier::external_type_specification]
#[verifier::external_body]
pub struct ExRootCertStore(RootCertStore);

#[verifier::external_type_specification]
#[verifier::external_body]
pub struct ExServerConfig(ServerConfig);

/// Failure while turning certificate material into a TLS configuration.
/// Each variant names the first step that went wrong.
#[derive(Debug, Clone, Copy, PartialEq, Eq, Structural)]
pub enum CertStoreError {
    /// The server certificate file did not decode as PEM certificates.
    ServerCertificateParse,
    /// The server key file did not decode as a PEM private key.
    ServerKeyParse,
    /// The server key file holds no private key block.
    ServerKeyMissing,
    /// The trusted client CA file did not decode as PEM certificates.
    TrustedCaParse,
    /// A trusted client CA certificate was rejected as a trust anchor.
    TrustAnchorRejected,
    /// The client certificate verifier could not be built (no trust anchors).
    ClientVerifier,
    /// The TLS library rejected the server certificate/key material.
    ConfigRejected,
    /// The signing CA certificate file did not decode as PEM certificates.
    SigningCaParse,
    /// The signing CA certificate file holds no certificate.
    SigningCaMissing,
    /// The signing CA key file did not decode as a PEM private key.
    SigningKeyParse,
    /// The signing CA key file holds no private key block.
    SigningKeyMissing,
    /// The signing CA key DER was rejected as a signing key pair.
    SigningKeyRejected,
    /// The signing CA certificate was rejected when building the issuer.
    IssuerRejected,
}

/// The encoding a private key arrived in. Which encodings a consumer
/// accepts depends on this label, not only on the key bytes, so contracts
/// about key acceptance carry it alongside the DER bytes.
#[derive(Debug, Clone, Copy, PartialEq, Eq, Structural)]
pub enum KeyDerFormat {
    Pkcs1,
    Sec1,
    Pkcs8,
}

/// The DER bytes of each CERTIFICATE block of a PEM input, in order, or
/// nothing if some section is malformed.
pub uninterp spec fn pem_certs_of(pem: Seq<u8>) -> Option<Seq<Seq<u8>>>;

/// The DER bytes a certificate value wraps.
pub uninterp spec fn cert_der_bytes(c: CertificateDer<'static>) -> Seq<u8>;

/// The format and DER bytes of the first private-key block of a PEM input
/// (`Some(None)` when no key block is present), or `None` if some section
/// is malformed.
pub uninterp spec fn pem_private_key_of(pem: Seq<u8>) -> Option<Option<(KeyDerFormat, Seq<u8>)>>;

/// The encoding a private-key value is labelled with.
pub uninterp spec fn key_der_format(k: PrivateKeyDer<'static>) -> KeyDerFormat;

/// The DER bytes a private-key value wraps.
pub uninterp spec fn key_der_bytes(k: PrivateKeyDer<'static>) -> Seq<u8>;

/// The DER bytes of the certificates a root store was built from, in the
/// order they were added.
pub uninterp spec fn root_store_certs(s: RootCertStore) -> Seq<Seq<u8>>;

/// Whether a DER certificate is accepted as a trust anchor by the root
/// store (its subject, public key and extensions all extract).
pub uninterp spec fn trust_anchor_acceptable(der: Seq<u8>) -> bool;

/// Whether the TLS library accepts this certificate chain and private key
/// as a server identity: the key parses under its format and its public
/// half matches the first certificate of the chain.
pub uninterp spec fn tls_accepts_key(
    chain: Seq<Seq<u8>>,
    key_format: KeyDerFormat,
    key: Seq<u8>,
) -> bool;

/// The DER bytes of each certificate in a list.
pub open spec fn der_bytes_of_list(certs: Seq<CertificateDer<'static>>) -> Seq<Seq<u8>> {
    certs.map_values(|c: CertificateDer<'static>| cert_der_bytes(c))
}

/// The format and DER bytes of a private-key value.
pub open spec fn key_der_view(k: PrivateKeyDer<'static>) -> (KeyDerFormat, Seq<u8>) {
    (key_der_format(k), key_der_bytes(k))
}

/// Relies on rustls_pemfile::certs: decodes every CERTIFICATE block of the
/// input into its DER bytes, in order, and fails on a malformed section.
/// The result depends on the input bytes alone.
#[verifier::external_body]
fn pem_certs(pem: &[u8]) -> (r: Option<Vec<CertificateDer<'static>>>)
    ensures
        r is Some <==> pem_certs_of(pem@) is Some,
        r matches Some(v) ==> pem_certs_of(pem@) == Some(
            der_bytes_of_list(v@),
        ),
{
    let mut reader: &[u8] = pem;
    rustls_pemfile::certs(&mut reader).collect::<Result<Vec<_>, _>>().ok()
}

/// Relies on rustls_pemfile::private_key: finds the first PKCS#8, PKCS#1 or
/// SEC1 private-key block and returns its DER form; `Some(None)` when the
/// input holds no key block; `None` on a malformed section. The result
/// depends on the input bytes alone.
#[verifier::external_body]
fn pem_private_key(pem: &[u8]) -> (r: Option<Option<PrivateKeyDer<'static>>>)
    ensures
        r is Some <==> pem_private_key_of(pem@) is Some,
        r matches Some(Some(k)) ==> pem_private_key_of(pem@) == Some(Some(key_der_view(k))),
        r matches Some(None) ==> pem_private_key_of(pem@) == Some(None::<(KeyDerFormat, Seq<u8>)>),
{
    let mut reader: &[u8] = pem;
    match rustls_pemfile::private_key(&mut reader) {
        Ok(k) => Some(k),
        Err(_) => None,
    }
}

/// Relies on rustls::RootCertStore::empty: a store holding no anchors.
#[verifier::external_body]
fn root_store_empty() -> (s: RootCertStore)
    ensures
        root_store_certs(s) == Seq::<Seq<u8>>::empty(),
{
    RootCertStore::empty()
}

/// Relies on rustls::RootCertStore::add: parses the DER certificate into a
/// trust anchor and appends it, succeeding exactly when the certificate is
/// acceptable as an anchor; on rejection the store is unchanged.
#[verifier::external_body]
fn root_store_add(s: &mut RootCertStore, c: CertificateDer<'static>) -> (r: Result<(), ()>)
    ensures
        r is Ok <==> trust_anchor_acceptable(cert_der_bytes(c)),
        r is Ok ==> root_store_certs(*final(s)) == root_store_certs(*old(s)).push(
            cert_der_bytes(c),
        ),
        r is Err ==> root_store_certs(*final(s)) == root_store_certs(*old(s)),
{
    s.add(c).map_err(|_| ())
}

/// Relies on rustls: builds a WebPkiClientVerifier over the given roots
/// that also admits clients presenting no certificate, then a ServerConfig
/// with the single server certificate chain and key. The verifier build
/// fails exactly when the root store holds no anchors; the final step
/// fails exactly when the TLS library rejects the chain/key pair, which it
/// decides from the decoded material alone: the ring provider is the only
/// one compiled into this crate's dependency tree, so the resolved
/// process-default provider never varies.
#[verifier::external_body]
fn build_tls_server_config(
    roots: Arc<RootCertStore>,
    certs: Vec<CertificateDer<'static>>,
    key: PrivateKeyDer<'static>,
) -> (r: Result<ServerConfig, CertStoreError>)
    ensures
        (r matches Err(CertStoreError::ClientVerifier)) <==> root_store_certs(*roots).len() == 0,
        (r matches Err(CertStoreError::ConfigRejected)) <==> (root_store_certs(*roots).len() > 0
            && !tls_accepts_key(der_bytes_of_list(certs@), key_der_format(key), key_der_bytes(key))),
        r is Ok <==> (root_store_certs(*roots).len() > 0 && tls_accepts_key(
            der_bytes_of_list(certs@),
            key_der_format(key),
            key_der_bytes(key),
        )),
        r matches Err(e) ==> (e == CertStoreError::ClientVerifier || e
            == CertStoreError::ConfigRejected),
{
    let verifier = rustls::server::WebPkiClientVerifier::builder(roots)
        .allow_unauthenticated()
        .build()
        .map_err(|_| CertStoreError::ClientVerifier)?;
    rustls::ServerConfig::builder()
        .with_client_cert_verifier(verifier)
        .with_single_cert(certs, key)
        .map_err(|_| CertStoreError::ConfigRejected)
}

/// Decodes the server certificate chain and private key from the two PEM
/// file contents.
pub fn read_server_certificate(cert_pem: &[u8], key_pem: &[u8]) -> (r: Result<
    (Vec<CertificateDer<'static>>, PrivateKeyDer<'static>),
    CertStoreError,
>)
    ensures
        match r {
            Ok((certs, key)) => {
                &&& pem_certs_of(cert_pem@) == Some(der_bytes_of_list(certs@))
                &&& pem_private_key_of(key_pem@) == Some(Some(key_der_view(key)))
            },
            Err(e) => match e {
                CertStoreError::ServerCertificateParse => pem_certs_of(cert_pem@) is None,
                CertStoreError::ServerKeyParse => pem_certs_of(cert_pem@) is Some
                    && pem_private_key_of(key_pem@) is None,
                CertStoreError::ServerKeyMissing => pem_certs_of(cert_pem@) is Some
                    && pem_private_key_of(key_pem@) == Some(None::<(KeyDerFormat, Seq<u8>)>),
                _ => false,
            },
        },
{
    let certs = match pem_certs(cert_pem) {
        Some(c) => c,
        None => {
            return Err(CertStoreError::ServerCertificateParse);
        },
    };
    match pem_private_key(key_pem) {
        Some(Some(key)) => Ok((certs, key)),
        Some(None) => Err(CertStoreError::ServerKeyMissing),
        None => Err(CertStoreError::ServerKeyParse),
    }
}

/// Decodes the trusted client CA certificates and collects every one of
/// them, in order, into a root store. Succeeds exactly when the file
/// parses and every certificate in it is acceptable as a trust anchor.
pub fn read_trusted_client_certificates_ca(ca_pem: &[u8]) -> (r: Result<
    Arc<RootCertStore>,
    CertStoreError,
>)
    ensures
        match r {
            Ok(store) => {
                &&& pem_certs_of(ca_pem@) == Some(root_store_certs(*store))
                &&& forall|i: int|
                    0 <= i < root_store_certs(*store).len() ==> trust_anchor_acceptable(
                        #[trigger] root_store_certs(*store)[i],
                    )
            },
            Err(e) => match e {
                CertStoreError::TrustedCaParse => pem_certs_of(ca_pem@) is None,
                CertStoreError::TrustAnchorRejected => pem_certs_of(ca_pem@) matches Some(cas)
                    && exists|i: int|
                    0 <= i < cas.len() && !trust_anchor_acceptable(#[trigger] cas[i]),
                _ => false,
            },
        },
{
    let mut certs = match pem_certs(ca_pem) {
        Some(c) => c,
        None => {
            return Err(CertStoreError::TrustedCaParse);
        },
    };
    let ghost all: Seq<Seq<u8>> = der_bytes_of_list(certs@);
    let mut store = root_store_empty();
    let ghost total: int = certs@.len() as int;
    proof {
        assert(all.take(0) =~= Seq::<Seq<u8>>::empty());
    }
    while certs.len() > 0
        invariant
            certs@.len() <= total,
            all.len() == total,
            der_bytes_of_list(certs@) == all.skip(total - certs@.len()),
            root_store_certs(store) == all.take(total - certs@.len()),
            pem_certs_of(ca_pem@) == Some(all),
            forall|j: int|
                0 <= j < total - certs@.len() ==> trust_anchor_acceptable(#[trigger] all[j]),
        decreases certs@.len(),
    {
        let ghost k: int = total - certs@.len();
        let ghost prev = certs@;
        let c = certs.remove(0);
        proof {
            assert(der_bytes_of_list(prev)[0] == cert_der_bytes(prev[0]));
            assert(cert_der_bytes(c) == all.skip(k)[0]);
            assert(all.skip(k)[0] == all[k]);
            assert(certs@ =~= prev.skip(1));
            assert forall|i: int| 0 <= i < certs@.len() implies #[trigger] der_bytes_of_list(
                certs@,
            )[i] == all.skip(k + 1)[i] by {
                assert(der_bytes_of_list(certs@)[i] == cert_der_bytes(certs@[i]));
                assert(certs@[i] == prev[i + 1]);
                assert(der_bytes_of_list(prev)[i + 1] == cert_der_bytes(prev[i + 1]));
                assert(all.skip(k)[i + 1] == all[k + 1 + i]);
                assert(all.skip(k + 1)[i] == all[k + 1 + i]);
            }
            assert(der_bytes_of_list(certs@) =~= all.skip(k + 1));
        }
        match root_store_add(&mut store, c) {
            Ok(()) => {
                proof {
                    assert(all.take(k).push(all[k]) =~= all.take(k + 1));
                }
            },
            Err(()) => {
                proof {
                    let cs = pem_certs_of(ca_pem@)->Some_0;
                    assert(cs == all);
                    assert(0 <= k < cs.len() && !trust_anchor_acceptable(cs[k]));
                }
                return Err(CertStoreError::TrustAnchorRejected);
            },
        }
    }
    proof {
        assert(all.take(total) =~= all);
    }
    Ok(Arc::new(store))
}

/// Builds a fresh TLS server configuration from the three PEM file
/// contents: server certificate chain, server private key, and the trusted
/// client CA certificates. The configuration requests, but does not
/// require, a client certificate; identity enforcement is deferred to the
/// application layer. Built wholesale on every call, never patched in
/// place, so every success is an internally consistent set of credentials.
pub fn build_server_config(server_cert_pem: &[u8], server_key_pem: &[u8], ca_pem: &[u8]) -> (r:
    Result<ServerConfig, CertStoreError>)
    ensures
        match r {
            Ok(_) => (pem_certs_of(server_cert_pem@) matches Some(sds) && pem_private_key_of(
                server_key_pem@,
            ) matches Some(Some(kv)) && (pem_certs_of(ca_pem@) matches Some(cas) && cas.len() > 0
                && (forall|i: int|
                0 <= i < cas.len() ==> trust_anchor_acceptable(#[trigger] cas[i]))
                && tls_accepts_key(sds, kv.0, kv.1))),
            Err(e) => match e {
                CertStoreError::ServerCertificateParse => pem_certs_of(server_cert_pem@) is None,
                CertStoreError::ServerKeyParse => pem_certs_of(server_cert_pem@) is Some
                    && pem_private_key_of(server_key_pem@) is None,
                CertStoreError::ServerKeyMissing => pem_certs_of(server_cert_pem@) is Some
                    && pem_private_key_of(server_key_pem@) == Some(None::<(KeyDerFormat, Seq<u8>)>),
                CertStoreError::TrustedCaParse => pem_certs_of(ca_pem@) is None,
                CertStoreError::TrustAnchorRejected => pem_certs_of(ca_pem@) matches Some(cas)
                    && exists|i: int|
                    0 <= i < cas.len() && !trust_anchor_acceptable(#[trigger] cas[i]),
                CertStoreError::ClientVerifier => pem_certs_of(ca_pem@) == Some(
                    Seq::<Seq<u8>>::empty(),
                ),
                CertStoreError::ConfigRejected => (pem_certs_of(
                    server_cert_pem@,
                ) matches Some(sds) && pem_private_key_of(server_key_pem@) matches Some(Some(kv))
                    && (pem_certs_of(ca_pem@) matches Some(cas) && cas.len() > 0)
                    && !tls_accepts_key(sds, kv.0, kv.1)),
                _ => false,
            },
        },
{
    let (server_certs, server_key) = match read_server_certificate(server_cert_pem, server_key_pem) {
        Ok(p) => p,
        Err(e) => {
            return Err(e);
        },
    };
    let trusted_client_store = match read_trusted_client_certificates_ca(ca_pem) {
        Ok(s) => s,
        Err(e) => {
            return Err(e);
        },
    };
    build_tls_server_config(trusted_client_store, server_certs, server_key)
}

/// Decodes the signing CA's certificate and private key from the two PEM
/// file contents and builds the issuer that signs certificate requests.
/// A missing private key is a distinct failure from a missing certificate.
pub fn read_signing_ca(ca_cert_pem: &[u8], ca_key_pem: &[u8]) -> (r: Result<
    Issuer<'static, KeyPair>,
    CertStoreError,
>)
    ensures
        match r {
            Ok(_) => {
                &&& pem_certs_of(ca_cert_pem@) matches Some(cs) && cs.len() > 0 && ca_cert_usable(
                    cs[0],
                )
                &&& pem_private_key_of(ca_key_pem@) matches Some(Some(kv)) && keypair_accepts(
                    kv.0,
                    kv.1,
                )
            },
            Err(e) => match e {
                CertStoreError::SigningCaParse => pem_certs_of(ca_cert_pem@) is None,
                CertStoreError::SigningCaMissing => pem_certs_of(ca_cert_pem@) == Some(
                    Seq::<Seq<u8>>::empty(),
                ),
                CertStoreError::SigningKeyParse => pem_private_key_of(ca_key_pem@) is None,
                CertStoreError::SigningKeyMissing => pem_private_key_of(ca_key_pem@) == Some(
                    None::<(KeyDerFormat, Seq<u8>)>,
                ),
                CertStoreError::SigningKeyRejected => pem_private_key_of(ca_key_pem@) matches Some(
                    Some(kv),
                ) && !keypair_accepts(kv.0, kv.1),
                CertStoreError::IssuerRejected => pem_certs_of(ca_cert_pem@) matches Some(cs)
                    && cs.len() > 0 && !ca_cert_usable(cs[0]),
                _ => false,
            },
        },
{
    let mut signing_cert_chain = match pem_certs(ca_cert_pem) {
        Some(c) => c,
        None => {
            return Err(CertStoreError::SigningCaParse);
        },
    };
    if signing_cert_chain.len() == 0 {
        proof {
            assert(der_bytes_of_list(signing_cert_chain@) =~= Seq::<Seq<u8>>::empty());
        }
        return Err(CertStoreError::SigningCaMissing);
    }
    let signing_key = match pem_private_key(ca_key_pem) {
        Some(Some(k)) => k,
        Some(None) => {
            return Err(CertStoreError::SigningKeyMissing);
        },
        None => {
            return Err(CertStoreError::SigningKeyParse);
        },
    };
    let signing_key_pair = match keypair_from_der(&signing_key) {
        Some(kp) => kp,
        None => {
            return Err(CertStoreError::SigningKeyRejected);
        },
    };
    let ghost chain_ders = der_bytes_of_list(signing_cert_chain@);
    let ca_cert = signing_cert_chain.remove(0);
    proof {
        assert(chain_ders[0] == cert_der_bytes(ca_cert));
    }
    match issuer_from_ca_der(&ca_cert, signing_key_pair) {
        Some(issuer) => Ok(issuer),
        None => Err(CertStoreError::IssuerRejected),
    }
}

} // verus!

