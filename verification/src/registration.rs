//! The registration request pipeline.
//!
//! A device on an authenticated mutual-TLS connection submits a PEM CSR
//! and receives a signed certificate chain, provided the identity the CSR
//! asks for equals the identity the peer certificate already carries.
//! Each failure maps to one of a small closed set of categories, which the
//! HTTP boundary renders: a missing or unparseable client certificate is
//! unauthorized, a malformed or mismatched CSR is a bad request, and a
//! rejected signing operation is a server error.

use vstd::prelude::*;

verus! {

use crate::csr::certificate_pem;
use crate::csr::cert_pem_of;
use crate::csr::csr_common_name_of;
use crate::csr::csr_inner_params;
use crate::csr::csr_params_of;
use crate::csr::csr_parses;
use crate::csr::csr_with_params;
use crate::csr::params_extended_key_usages;
use crate::csr::params_is_ca;
use crate::csr::params_key_usages;
use crate::csr::params_without_policy;
use crate::csr::read_csr;
use crate::csr::ExtendedUsage;
use crate::csr::KeyUsage;
use crate::csr::set_csr_params;
use crate::csr::sign_csr;
use crate::identity::VehicleInfoHolder;
use crate::identity::cn_identity;
use crate::identity::dn_identity;
use crate::listener::ClientCertInfo;
use rcgen::Certificate;
use rcgen::Issuer;
use rcgen::KeyPair;
use vstd::string::StringExecFns;

/// The closed set of request failures, each rendered as one HTTP status at
/// the boundary.
#[derive(Debug, Clone, Copy, PartialEq, Eq, Structural)]
pub enum AppError {
    /// The connection presented no client certificate, or one without a
    /// parseable vehicle identity.
    ClientCertificate,
    /// The CSR is malformed, carries no usable identity, or asks for an
    /// identity other than the peer's.
    Csr,
    /// The signing operation rejected the normalized request.
    Signing,
}

impl AppError {
    /// The HTTP status this failure is rendered as.
    pub fn status_code(&self) -> (c: u16)
        ensures
            c == match *self {
                AppError::ClientCertificate => 401u16,
                AppError::Csr => 400u16,
                AppError::Signing => 500u16,
            },
    {
        match self {
            AppError::ClientCertificate => 401,
            AppError::Csr => 400,
            AppError::Signing => 500,
        }
    }

    /// The generic message returned to the caller; the underlying cause
    /// stays server-side.
    pub fn message(&self) -> (m: &'static str)
        ensures
            m@ == match *self {
                AppError::ClientCertificate => "Client Certificate missing"@,
                AppError::Csr => "Csr is not valid"@,
                AppError::Signing => "Error signing CSR"@,
            },
    {
        match self {
            AppError::ClientCertificate => "Client Certificate missing",
            AppError::Csr => "Csr is not valid",
            AppError::Signing => "Error signing CSR",
        }
    }
}

/// The identity a CSR text asks for: its Common Name's `VIN:`/`DEVICE:`
/// pair, when the CSR parses and carries a usable Common Name.
pub open spec fn spec_csr_identity(pem: Seq<char>) -> Option<(Seq<char>, Seq<char>)> {
    if csr_parses(pem) {
        match csr_common_name_of(pem) {
            Some(cn) => cn_identity(cn),
            None => None,
        }
    } else {
        None
    }
}

/// The identity of the mutual-TLS peer: the `VIN:`/`DEVICE:` pair of the
/// `CN=` component of its certificate's subject, if a certificate was
/// presented at all.
pub open spec fn spec_peer_identity(client_certificate: Option<ClientCertInfo>) -> Option<
    (Seq<char>, Seq<char>),
> {
    match client_certificate {
        Some(c) => dn_identity(c.subject@),
        None => None,
    }
}

/// The first failure a registration request runs into before signing, or
/// nothing when the request reaches the signing step.
pub open spec fn spec_registration_error(
    client_certificate: Option<ClientCertInfo>,
    csr_pem: Seq<char>,
) -> Option<AppError> {
    if client_certificate is None {
        Some(AppError::ClientCertificate)
    } else if spec_peer_identity(client_certificate) is None {
        Some(AppError::ClientCertificate)
    } else if spec_csr_identity(csr_pem) is None {
        Some(AppError::Csr)
    } else if spec_csr_identity(csr_pem) != spec_peer_identity(client_certificate) {
        Some(AppError::Csr)
    } else {
        None
    }
}

/// Law: signing proceeds only on a request that cleared every check, and
/// that happens exactly when both identities exist and are equal, both
/// fields each. Any mismatch in either field is rejected before signing.
pub proof fn lemma_signing_iff_identity_match(
    client_certificate: Option<ClientCertInfo>,
    csr_pem: Seq<char>,
)
    ensures
        spec_registration_error(client_certificate, csr_pem) is None <==> (
        spec_peer_identity(client_certificate) matches Some(p)
            && spec_csr_identity(csr_pem) matches Some(q) && p == q),
{
}

/// Forms the trust chain returned to the device: the issued leaf
/// certificate's PEM followed by the CA certificate's PEM.
pub fn certificate_chain(issued: &Certificate, ca_cert_pem: &str) -> (chain: String)
    ensures
        chain@ == cert_pem_of(*issued) + ca_cert_pem@,
        cert_pem_of(*issued).len() > 0,
{
    certificate_pem(issued).concat(ca_cert_pem)
}

/// Handles one registration request: requires a peer identity, decodes
/// the CSR, insists the two identities agree, normalizes the request to
/// the issuance policy, signs it, and returns the issued certificate
/// followed by the CA certificate as one PEM chain. The CA certificate
/// text is read fresh by the caller at response time and passed in.
pub fn registration(
    client_certificate: &Option<ClientCertInfo>,
    csr_pem: &str,
    issuer: &Issuer<'static, KeyPair>,
    ca_cert_pem: &str,
) -> (r: Result<String, AppError>)
    ensures
        match spec_registration_error(*client_certificate, csr_pem@) {
            Some(e) => r == Err::<String, AppError>(e),
            None => r is Ok || r == Err::<String, AppError>(AppError::Signing),
        },
        r matches Ok(chain) ==> exists|issued: Certificate|
            chain@ == #[trigger] cert_pem_of(issued) + ca_cert_pem@ && cert_pem_of(issued).len()
                > 0,
{
    let cert = match client_certificate {
        Some(c) => c,
        None => {
            return Err(AppError::ClientCertificate);
        },
    };
    let vehicle_info = match cert.subject.parse_vehicleinfo() {
        Ok(v) => v,
        Err(_) => {
            return Err(AppError::ClientCertificate);
        },
    };
    let csr_request = match read_csr(csr_pem) {
        Ok(c) => c,
        Err(_) => {
            return Err(AppError::Csr);
        },
    };
    let csr_cn: &str = match &csr_request.common_name {
        Some(cn) => cn.as_str(),
        None => {
            return Err(AppError::Csr);
        },
    };
    let csr_vehicle_info = match VehicleInfoHolder::parse_from_cn(csr_cn) {
        Ok(v) => v,
        Err(_) => {
            return Err(AppError::Csr);
        },
    };
    if !(csr_vehicle_info == vehicle_info) {
        return Err(AppError::Csr);
    }
    let ghost requested = csr_params_of(csr_request.params);
    let normalized = set_csr_params(csr_inner_params(&csr_request.params));
    let signable = csr_with_params(csr_request.params, normalized);
    proof {
        // what goes to the signer carries the issuance policy, with the
        // non-policy fields of the CSR (its subject among them) untouched
        assert(params_is_ca(csr_params_of(signable)) == false);
        assert(params_extended_key_usages(csr_params_of(signable)) == seq![
            ExtendedUsage::ClientAuth,
        ]);
        assert(params_key_usages(csr_params_of(signable)) == seq![
            KeyUsage::DigitalSignature,
            KeyUsage::KeyEncipherment,
        ]);
        assert(params_without_policy(csr_params_of(signable)) == params_without_policy(requested));
    }
    let certificate = match sign_csr(signable, issuer) {
        Ok(c) => c,
        Err(_) => {
            return Err(AppError::Signing);
        },
    };
    let chain = certificate_chain(&certificate, ca_cert_pem);
    proof {
        assert(chain@ == cert_pem_of(certificate) + ca_cert_pem@);
    }
    Ok(chain)
}

} // verus!

