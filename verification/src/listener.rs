//! Per-connection client certificate identity.
//!
//! The TLS accept loop itself performs network I/O and lives outside this
//! crate; it hands over the peer's certificate chain as raw DER bytes.
//! Everything after that is here: parsing the leaf certificate into a
//! structured identity record, and the per-attempt decision that a failed
//! handshake is retried silently while a completed one always yields a
//! connection, with or without a client identity.

use vstd::prelude::*;

verus! {

use crate::identity::VehicleInfoHolder;
use vstd::slice::slice_to_vec;
use x509_parser::prelude::FromDer;

/// What an X.509 certificate displays for each field this service reads.
pub struct X509Fields {
    pub subject: Seq<char>,
    pub issuer: Seq<char>,
    pub serial: Seq<char>,
    pub not_before: Seq<char>,
    pub not_after: Seq<char>,
}

/// The displayed subject, issuer, serial and validity bounds of a DER
/// certificate, or nothing if the bytes do not parse as one.
pub uninterp spec fn x509_fields_of(der: Seq<u8>) -> Option<X509Fields>;

/// Relies on x509_parser's X509Certificate::from_der and on the Display
/// renderings of the certificate's subject, issuer, serial number and
/// validity bounds: all are functions of the DER bytes alone.
#[verifier::external_body]
fn parse_x509_summary(cert_der: &[u8]) -> (r: Option<(String, String, String, String, String)>)
    ensures
        r is Some <==> x509_fields_of(cert_der@) is Some,
        r matches Some(t) ==> x509_fields_of(cert_der@) == Some(
            X509Fields {
                subject: t.0@,
                issuer: t.1@,
                serial: t.2@,
                not_before: t.3@,
                not_after: t.4@,
            },
        ),
{
    let (_, cert) = x509_parser::prelude::X509Certificate::from_der(cert_der).ok()?;
    Some((
        cert.subject().to_string(),
        cert.issuer().to_string(),
        cert.serial.to_string(),
        cert.validity().not_before.to_string(),
        cert.validity().not_after.to_string(),
    ))
}

/// The identity record derived from a peer's client certificate: the raw
/// subject Distinguished Name, issuer, serial number, validity window as
/// display strings, and the encoded certificate bytes.
#[derive(Debug, Clone)]
pub struct ClientCertInfo {
    pub subject: VehicleInfoHolder,
    pub issuer: String,
    pub serial: String,
    pub not_before: String,
    pub not_after: String,
    pub raw_der: Vec<u8>,
}

/// Whether an identity record is exactly what these DER bytes display.
pub open spec fn cert_info_matches(info: ClientCertInfo, der: Seq<u8>) -> bool {
    &&& x509_fields_of(der) matches Some(f)
    &&& f == (X509Fields {
        subject: info.subject@,
        issuer: info.issuer@,
        serial: info.serial@,
        not_before: info.not_before@,
        not_after: info.not_after@,
    })
    &&& info.raw_der@ == der
}

/// Parses a DER-encoded client certificate into its identity record, or
/// nothing if the bytes do not parse as a certificate.
pub fn parse_client_certificate(cert_der: &[u8]) -> (r: Option<ClientCertInfo>)
    ensures
        r is Some <==> x509_fields_of(cert_der@) is Some,
        r matches Some(info) ==> cert_info_matches(info, cert_der@),
{
    match parse_x509_summary(cert_der) {
        Some((subject, issuer, serial, not_before, not_after)) => Some(
            ClientCertInfo {
                subject: VehicleInfoHolder(subject),
                issuer,
                serial,
                not_before,
                not_after,
                raw_der: slice_to_vec(cert_der),
            },
        ),
        None => None,
    }
}

/// What the extraction of a peer identity yields, as a spec: nothing
/// unless the peer presented at least one certificate whose leading
/// certificate parses.
pub open spec fn spec_extracted_identity(peer_certs: Option<Seq<Seq<u8>>>, r: Option<
    ClientCertInfo,
>) -> bool {
    match peer_certs {
        None => r is None,
        Some(certs) => {
            if certs.len() == 0 {
                r is None
            } else {
                &&& (r is Some <==> x509_fields_of(certs[0]) is Some)
                &&& (r matches Some(info) ==> cert_info_matches(info, certs[0]))
            }
        },
    }
}

/// Derives the identity record from the peer's certificate chain, if one
/// was presented: the first certificate is the peer's own. Absence of a
/// certificate, and a certificate that does not parse, both yield no
/// identity rather than an error: the decision to require one belongs to
/// the request handler.
pub fn extract_client_certificate(peer_certs: &Option<Vec<Vec<u8>>>) -> (r: Option<ClientCertInfo>)
    ensures
        spec_extracted_identity(
            match *peer_certs {
                Some(ref v) => Some(v@.map_values(|c: Vec<u8>| c@)),
                None => None,
            },
            r,
        ),
{
    match peer_certs {
        Some(certs) => {
            if certs.len() > 0 {
                let r = parse_client_certificate(certs[0].as_slice());
                proof {
                    assert(certs@.map_values(|c: Vec<u8>| c@)[0] == certs@[0]@);
                }
                r
            } else {
                None
            }
        },
        None => None,
    }
}

/// One attempt of the accept loop, as the listener observes it: the raw
/// transport accept failed, the TLS handshake failed, or the handshake
/// completed with the peer's presented certificate chain (as DER bytes).
pub enum AcceptAttempt {
    TransportFailed,
    HandshakeFailed,
    Established(Option<Vec<Vec<u8>>>),
}

/// The per-attempt decision of the accept loop. A failed attempt yields
/// no connection and no error — the attempt is discarded and the loop
/// goes on to the next connection, since the serving framework has no
/// per-connection error channel. A completed handshake always yields a
/// connection, annotated with the peer identity extracted from the
/// presented chain, or with none.
pub fn accept_decision(attempt: &AcceptAttempt) -> (r: Option<Option<ClientCertInfo>>)
    ensures
        r is Some <==> *attempt matches AcceptAttempt::Established(_),
        *attempt matches AcceptAttempt::Established(chain) ==> (r matches Some(identity)
            && spec_extracted_identity(
            match chain {
                Some(v) => Some(v@.map_values(|c: Vec<u8>| c@)),
                None => None,
            },
            identity,
        )),
{
    match attempt {
        AcceptAttempt::Established(chain) => Some(extract_client_certificate(chain)),
        AcceptAttempt::TransportFailed => None,
        AcceptAttempt::HandshakeFailed => None,
    }
}

} // verus!
