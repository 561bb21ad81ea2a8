//! Certificate signing requests: decoding, policy normalization, signing.
//!
//! A CSR arrives as PEM text; decoding it also extracts the requested
//! Common Name so the identity check can run on plain strings. Before
//! signing, the requested parameters are normalized to a fixed issuance
//! policy, regardless of what the CSR asked for: a fixed validity window,
//! client-authentication usage only, and never a CA certificate.

use vstd::prelude::*;

verus! {

use crate::certificates::cert_der_bytes;
use crate::certificates::key_der_bytes;
use crate::certificates::key_der_format;
use crate::certificates::KeyDerFormat;
use crate::identity::opt_string_view;
use rcgen::Certificate;
use rcgen::CertificateParams;
use rcgen::CertificateSigningRequestParams;
use rcgen::Issuer;
use rcgen::KeyPair;
use rustls_pki_types::CertificateDer;
use rustls_pki_types::PrivateKeyDer;
use time::OffsetDateTime;

#[verifier::external_type_specification]
#[verifier::external_body]
pub struct ExCertificateSigningRequestParams(CertificateSigningRequestParams);

#[verifier::external_type_specification]
#[verifier::external_body]
pub struct ExCertificateParams(CertificateParams);

#[verifier::external_type_specification]
#[verifier::external_body]
pub struct ExCertificate(Certificate);

#[verifier::external_type_specification]
#[verifier::external_body]
#[verifier::reject_recursive_types(S)]
pub struct ExIssuer<'a, S>(Issuer<'a, S>);

#[verifier::external_type_specification]
#[verifier::external_body]
pub struct ExKeyPair(KeyPair);

#[verifier::external_type_specification]
#[verifier::external_body]
pub struct ExOffsetDateTime(OffsetDateTime);

/// Failure while decoding or signing a certificate signing request.
#[derive(Debug, Clone, Copy, PartialEq, Eq, Structural)]
pub enum CsrError {
    /// The request did not decode as a PEM CSR.
    Malformed,
    /// The signing operation rejected the request.
    Signing,
}

/// Whether a text decodes as a PEM certificate signing request.
pub uninterp spec fn csr_parses(pem: Seq<char>) -> bool;

/// The Common Name a PEM certificate signing request asks for, when it is
/// present and carried as a UTF-8 string.
pub uninterp spec fn csr_common_name_of(pem: Seq<char>) -> Option<Seq<char>>;

/// Whether a private key is accepted as a signing key pair. Acceptance
/// depends on the encoding label as well as the bytes: only a PKCS#8 key
/// is considered at all under this crate's crypto backend.
pub uninterp spec fn keypair_accepts(format: KeyDerFormat, der: Seq<u8>) -> bool;

/// Whether a DER certificate is accepted as the base of a signing issuer:
/// its subject, key usages and key-identifier method all extract.
pub uninterp spec fn ca_cert_usable(der: Seq<u8>) -> bool;

/// The expiry instant a certificate-parameters value asks for.
pub uninterp spec fn params_not_after(p: CertificateParams) -> OffsetDateTime;

/// The extended key usages a certificate-parameters value asks for, read
/// in this library's policy vocabulary.
pub uninterp spec fn params_extended_key_usages(p: CertificateParams) -> Seq<ExtendedUsage>;

/// The key usages a certificate-parameters value asks for, read in this
/// library's policy vocabulary.
pub uninterp spec fn params_key_usages(p: CertificateParams) -> Seq<KeyUsage>;

/// Whether a certificate-parameters value asks for CA status.
pub uninterp spec fn params_is_ca(p: CertificateParams) -> bool;

/// The parameters with the four policy fields (expiry, both usage lists,
/// CA status) erased: equality under this projection says every other
/// field — subject name and its Common Name, alternative names, serial,
/// not-before, key identification — is untouched.
pub uninterp spec fn params_without_policy(p: CertificateParams) -> CertificateParams;

/// The requested parameters a certificate signing request carries.
pub uninterp spec fn csr_params_of(req: CertificateSigningRequestParams) -> CertificateParams;

/// The PEM rendering of an issued certificate, a function of its DER.
pub uninterp spec fn cert_pem_of(c: Certificate) -> Seq<char>;

/// A decoded certificate signing request together with the Common Name it
/// asks for, already extracted as a plain string.
pub struct CsrRequest {
    pub params: CertificateSigningRequestParams,
    pub common_name: Option<String>,
}

/// Relies on rcgen's CertificateSigningRequestParams::from_pem, and on
/// DistinguishedName::get for the Common Name entry: both depend on the
/// input text alone. The Common Name is `None` when absent or not carried
/// as a UTF-8 string.
#[verifier::external_body]
pub fn read_csr(pem: &str) -> (r: Result<CsrRequest, CsrError>)
    ensures
        r is Ok <==> csr_parses(pem@),
        r matches Ok(c) ==> opt_string_view(c.common_name) == csr_common_name_of(pem@),
        r matches Err(e) ==> e == CsrError::Malformed,
{
    let csr = CertificateSigningRequestParams::from_pem(pem).map_err(|_| CsrError::Malformed)?;
    let common_name = match csr.params.distinguished_name.get(&rcgen::DnType::CommonName) {
        Some(rcgen::DnValue::Utf8String(s)) => Some(s.clone()),
        _ => None,
    };
    Ok(CsrRequest { params: csr, common_name })
}

/// Relies on rcgen's signed_by: signs the request with the issuer's key.
/// The signature is randomized, so nothing is stated of the result.
#[verifier::external_body]
pub fn sign_csr(csr_params: CertificateSigningRequestParams, issuer: &Issuer<'static, KeyPair>) -> (r:
    Result<Certificate, CsrError>)
{
    match csr_params.signed_by(issuer) {
        Ok(c) => Ok(c),
        Err(_) => Err(CsrError::Signing),
    }
}

/// Relies on rcgen's Certificate::pem: the PEM rendering of the issued
/// certificate, never empty.
#[verifier::external_body]
pub fn certificate_pem(cert: &Certificate) -> (r: String)
    ensures
        r@ == cert_pem_of(*cert),
        r@.len() > 0,
{
    cert.pem()
}

/// Relies on rcgen's CertificateParams being plain cloneable data: yields
/// the requested parameters carried by the CSR.
#[verifier::external_body]
pub(crate) fn csr_inner_params(req: &CertificateSigningRequestParams) -> (r: CertificateParams)
    ensures
        r == csr_params_of(*req),
{
    req.params.clone()
}

/// Replaces the requested parameters of the CSR, moving fields only; the
/// subject public key travels along unchanged.
#[verifier::external_body]
pub(crate) fn csr_with_params(
    req: CertificateSigningRequestParams,
    params: CertificateParams,
) -> (r: CertificateSigningRequestParams)
    ensures
        csr_params_of(r) == params,
{
    let mut r = req;
    r.params = params;
    r
}

/// Relies on time's OffsetDateTime::now_utc and Duration arithmetic: the
/// current instant moved forward by the given number of days. The result
/// depends on the clock. The bound keeps the sum far inside the
/// representable date range, where the addition cannot fail.
#[verifier::external_body]
fn now_plus_days(days: u64) -> (t: OffsetDateTime)
    requires
        days <= 36500,
{
    OffsetDateTime::now_utc() + time::Duration::days(days as i64)
}

/// Relies on field assignment of rcgen::CertificateParams: sets the
/// certificate expiry instant.
#[verifier::external_body]
fn params_set_not_after(params: CertificateParams, t: OffsetDateTime) -> (r: CertificateParams)
    ensures
        params_not_after(r) == t,
        params_extended_key_usages(r) == params_extended_key_usages(params),
        params_key_usages(r) == params_key_usages(params),
        params_is_ca(r) == params_is_ca(params),
        params_without_policy(r) == params_without_policy(params),
{
    let mut p = params;
    p.not_after = t;
    p
}

/// An extended-key-usage purpose the issuance policy can grant.
#[derive(Debug, Clone, Copy, PartialEq, Eq, Structural)]
pub enum ExtendedUsage {
    ClientAuth,
}

/// A key-usage purpose the issuance policy can grant.
#[derive(Debug, Clone, Copy, PartialEq, Eq, Structural)]
pub enum KeyUsage {
    DigitalSignature,
    KeyEncipherment,
}

/// Relies on field assignment of rcgen::CertificateParams: sets the
/// extended key usages to exactly the given purposes, one for one.
#[verifier::external_body]
fn params_set_extended_key_usages(
    params: CertificateParams,
    usages: &Vec<ExtendedUsage>,
) -> (r: CertificateParams)
    ensures
        params_extended_key_usages(r) == usages@,
        params_not_after(r) == params_not_after(params),
        params_key_usages(r) == params_key_usages(params),
        params_is_ca(r) == params_is_ca(params),
        params_without_policy(r) == params_without_policy(params),
{
    let mut p = params;
    p.extended_key_usages = usages
        .iter()
        .map(|u| match u { ExtendedUsage::ClientAuth => rcgen::ExtendedKeyUsagePurpose::ClientAuth })
        .collect();
    p
}

/// Relies on field assignment of rcgen::CertificateParams: sets the key
/// usages to exactly the given purposes, one for one.
#[verifier::external_body]
fn params_set_key_usages(params: CertificateParams, usages: &Vec<KeyUsage>) -> (r:
    CertificateParams)
    ensures
        params_key_usages(r) == usages@,
        params_not_after(r) == params_not_after(params),
        params_extended_key_usages(r) == params_extended_key_usages(params),
        params_is_ca(r) == params_is_ca(params),
        params_without_policy(r) == params_without_policy(params),
{
    let mut p = params;
    p.key_usages = usages
        .iter()
        .map(|u| match u {
            KeyUsage::DigitalSignature => rcgen::KeyUsagePurpose::DigitalSignature,
            KeyUsage::KeyEncipherment => rcgen::KeyUsagePurpose::KeyEncipherment,
        })
        .collect();
    p
}

/// Relies on field assignment of rcgen::CertificateParams: marks the
/// certificate as a CA or not, from the flag.
#[verifier::external_body]
fn params_set_is_ca(params: CertificateParams, ca: bool) -> (r: CertificateParams)
    ensures
        params_is_ca(r) == ca,
        params_not_after(r) == params_not_after(params),
        params_extended_key_usages(r) == params_extended_key_usages(params),
        params_key_usages(r) == params_key_usages(params),
        params_without_policy(r) == params_without_policy(params),
{
    let mut p = params;
    p.is_ca = if ca {
        rcgen::IsCa::Ca(rcgen::BasicConstraints::Unconstrained)
    } else {
        rcgen::IsCa::NoCa
    };
    p
}

/// The fixed issuance policy applied to every signed certificate.
pub struct IssuancePolicy {
    pub validity_days: u64,
    pub extended_key_usages: Vec<ExtendedUsage>,
    pub key_usages: Vec<KeyUsage>,
    pub is_ca: bool,
}

/// The one policy this authority issues under: 365 days of validity,
/// client authentication only, digital signature and key encipherment,
/// and never a CA certificate.
pub fn issuance_policy() -> (p: IssuancePolicy)
    ensures
        p.validity_days == 365,
        p.extended_key_usages@ == seq![ExtendedUsage::ClientAuth],
        p.key_usages@ == seq![KeyUsage::DigitalSignature, KeyUsage::KeyEncipherment],
        p.is_ca == false,
{
    let mut ext: Vec<ExtendedUsage> = Vec::new();
    ext.push(ExtendedUsage::ClientAuth);
    let mut key: Vec<KeyUsage> = Vec::new();
    key.push(KeyUsage::DigitalSignature);
    key.push(KeyUsage::KeyEncipherment);
    proof {
        assert(ext@ =~= seq![ExtendedUsage::ClientAuth]);
        assert(key@ =~= seq![KeyUsage::DigitalSignature, KeyUsage::KeyEncipherment]);
    }
    IssuancePolicy { validity_days: 365, extended_key_usages: ext, key_usages: key, is_ca: false }
}

/// Normalizes the requested certificate parameters to the fixed issuance
/// policy before signing, whatever the CSR requested: client
/// authentication as the only extended key usage, digital signature and
/// key encipherment as the key usages, no CA status, and expiry at the
/// policy's validity horizon from the clock's present instant (the one
/// fact below that cannot name its exact value). Every other field of the
/// request is left untouched.
pub fn set_csr_params(csr_params: CertificateParams) -> (r: CertificateParams)
    ensures
        params_is_ca(r) == false,
        params_extended_key_usages(r) == seq![ExtendedUsage::ClientAuth],
        params_key_usages(r) == seq![KeyUsage::DigitalSignature, KeyUsage::KeyEncipherment],
        params_without_policy(r) == params_without_policy(csr_params),
{
    let policy = issuance_policy();
    let not_after = now_plus_days(policy.validity_days);
    let p = params_set_not_after(csr_params, not_after);
    let p = params_set_extended_key_usages(p, &policy.extended_key_usages);
    let p = params_set_key_usages(p, &policy.key_usages);
    params_set_is_ca(p, policy.is_ca)
}

/// Relies on rcgen's KeyPair::try_from on a DER private key: acceptance
/// depends on the key's encoding label and bytes alone (a non-PKCS#8 key
/// is rejected outright under this crate's crypto backend).
#[verifier::external_body]
pub(crate) fn keypair_from_der(key: &PrivateKeyDer<'static>) -> (r: Option<KeyPair>)
    ensures
        r is Some <==> keypair_accepts(key_der_format(*key), key_der_bytes(*key)),
{
    KeyPair::try_from(key).ok()
}

/// Relies on rcgen's Issuer::from_ca_cert_der: parses the CA certificate
/// and takes over its subject, key usages and key-identifier method;
/// acceptance depends on the certificate bytes alone. The signing key is
/// carried along unvalidated.
#[verifier::external_body]
pub(crate) fn issuer_from_ca_der(ca_cert: &CertificateDer<'static>, signing_key: KeyPair) -> (r:
    Option<Issuer<'static, KeyPair>>)
    ensures
        r is Some <==> ca_cert_usable(cert_der_bytes(*ca_cert)),
{
    Issuer::from_ca_cert_der(ca_cert, signing_key).ok()
}

} // verus!

