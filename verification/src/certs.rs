//! The local certificate authority: a root certificate made once, and leaf
//! certificates signed by it for the domains whose rules ask for HTTPS.
use vstd::prelude::*;

use rcgen::{
    BasicConstraints, CertificateParams, DnType, ExtendedKeyUsagePurpose, IsCa, Issuer, KeyPair,
    KeyUsagePurpose,
};
use tokio_rustls::rustls::crypto::ring::sign::any_supported_type;
use tokio_rustls::rustls::pki_types::pem::PemObject;
use tokio_rustls::rustls::pki_types::{CertificateDer, PrivateKeyDer};
use tokio_rustls::rustls::sign::CertifiedKey;

use crate::trust::CERT_NAME;

verus! {

#[verifier::external_type_specification]
#[verifier::external_body]
pub struct ExKeyPair(KeyPair);

#[verifier::external_type_specification]
#[verifier::external_body]
pub struct ExCertificateParams(CertificateParams);

#[verifier::external_type_specification]
#[verifier::external_body]
#[verifier::reject_recursive_types(S)]
pub struct ExIssuer<'a, S>(Issuer<'a, S>);

#[verifier::external_type_specification]
#[verifier::external_body]
pub struct ExRcgenError(rcgen::Error);

#[verifier::external_type_specification]
#[verifier::external_body]
pub struct ExPemError(tokio_rustls::rustls::pki_types::pem::Error);

#[verifier::external_type_specification]
#[verifier::external_body]
pub struct ExTlsError(tokio_rustls::rustls::Error);

#[verifier::external_type_specification]
#[verifier::external_body]
pub struct ExPrivateKeyDer<'a>(PrivateKeyDer<'a>);

#[verifier::external_type_specification]
#[verifier::external_body]
pub struct ExCertifiedKey(CertifiedKey);

/// The file the root certificate is kept in.
pub const ROOT_CERT_FILENAME: &'static str = "SideDNS-CA.crt";

/// The file the root certificate's private key is kept in.
pub const ROOT_KEY_FILENAME: &'static str = "SideDNS-CA.key";

/// The organisation named in the root certificate.
pub const ORGANIZATION_NAME: &'static str = "SideDNS";

/// The algorithms keys are made for.
#[derive(Clone, Copy, Debug, PartialEq, Eq)]
pub enum KeyAlgorithm {
    EcdsaP256Sha256,
}

/// The parts of a certificate's distinguished name that are set.
#[derive(Clone, Copy, Debug, PartialEq, Eq)]
pub enum NamePart {
    CommonName,
    OrganizationName,
    OrganizationalUnitName,
}

/// The key usages that are set.
#[derive(Clone, Copy, Debug, PartialEq, Eq)]
pub enum KeyUsage {
    DigitalSignature,
    KeyCertSign,
    CrlSign,
}

/// The extended key usages that are set.
#[derive(Clone, Copy, Debug, PartialEq, Eq)]
pub enum ExtendedKeyUsage {
    ServerAuth,
}

/// What a certificate is made from: its subject alternative names, the
/// parts of its distinguished name (a later part of a kind replaces an
/// earlier one), its key usages, and, for a CA, how many CAs may stand
/// below it.
pub struct CertRequest {
    pub alt_names: Vec<String>,
    pub name: Vec<(NamePart, String)>,
    pub key_usages: Vec<KeyUsage>,
    pub extended_key_usages: Vec<ExtendedKeyUsage>,
    pub ca_path_length: Option<u8>,
}

/// Why a certificate could not be made or loaded.
#[derive(Clone, Copy, Debug, PartialEq, Eq)]
pub enum CaError {
    /// A certificate was asked for no domain at all.
    NoDomains,
    /// No key pair could be generated.
    KeyGeneration,
    /// A name is neither an IP address nor ASCII.
    InvalidName,
    /// Signing the certificate failed.
    Signing,
    /// The new key could not be read back as a private key.
    KeyEncoding,
    /// The TLS library supports no signer for the key.
    UnsupportedKey,
    /// The root certificate's file holds no PEM certificate.
    CertificateFormat,
    /// The root key's file holds no PEM private key.
    KeyFormat,
    /// The root key is not a P-256 PKCS#8 key.
    InvalidKey,
    /// The root certificate could not be parsed.
    InvalidCertificate,
}

/// A text made only of ASCII characters.
pub open spec fn is_ascii_text(s: Seq<char>) -> bool {
    forall|i: int| 0 <= i < s.len() ==> (#[trigger] s[i] as u32) < 128
}

/// Some name in `names` is not ASCII.
pub open spec fn has_non_ascii_name(names: Seq<String>) -> bool {
    exists|i: int| 0 <= i < names.len() && !is_ascii_text(#[trigger] names[i]@)
}

/// `KeyPair::generate_for`: a fresh random key pair for the algorithm.
#[verifier::external_body]
fn new_key_pair(alg: KeyAlgorithm) -> Result<KeyPair, rcgen::Error> {
    match alg {
        KeyAlgorithm::EcdsaP256Sha256 => KeyPair::generate_for(&rcgen::PKCS_ECDSA_P256_SHA256),
    }
}

/// `CertificateParams::new`: parameters with these subject alternative
/// names. Each name is taken as an IP address when it parses as one, and as
/// a DNS name otherwise, which fails when the name is not ASCII (an IP
/// address's text always is).
#[verifier::external_body]
fn certificate_params(names: Vec<String>) -> (r: Result<CertificateParams, rcgen::Error>)
    ensures
        r.is_err() == has_non_ascii_name(names@),
{
    CertificateParams::new(names)
}

/// `DistinguishedName::push` on the parameters' subject: sets one part,
/// replacing what that part held.
#[verifier::external_body]
fn push_name_part(params: &mut CertificateParams, part: NamePart, value: &str) {
    let ty = match part {
        NamePart::CommonName => DnType::CommonName,
        NamePart::OrganizationName => DnType::OrganizationName,
        NamePart::OrganizationalUnitName => DnType::OrganizationalUnitName,
    };
    params.distinguished_name.push(ty, value)
}

/// Sets the parameters' `key_usages` field.
#[verifier::external_body]
fn set_key_usages(params: &mut CertificateParams, usages: &Vec<KeyUsage>) {
    params.key_usages = usages.iter().map(|u| match u {
        KeyUsage::DigitalSignature => KeyUsagePurpose::DigitalSignature,
        KeyUsage::KeyCertSign => KeyUsagePurpose::KeyCertSign,
        KeyUsage::CrlSign => KeyUsagePurpose::CrlSign,
    }).collect();
}

/// Sets the parameters' `extended_key_usages` field.
#[verifier::external_body]
fn set_extended_key_usages(params: &mut CertificateParams, usages: &Vec<ExtendedKeyUsage>) {
    params.extended_key_usages = usages.iter().map(|u| match u {
        ExtendedKeyUsage::ServerAuth => ExtendedKeyUsagePurpose::ServerAuth,
    }).collect();
}

/// Sets the parameters' `is_ca` field: a CA under which at most `depth`
/// further CAs may stand.
#[verifier::external_body]
fn set_ca_path_length(params: &mut CertificateParams, depth: u8) {
    params.is_ca = IsCa::Ca(BasicConstraints::Constrained(depth));
}

/// `CertificateParams::signed_by`: the certificate for `key`, signed by
/// `issuer`, as DER (`Certificate::der`).
#[verifier::external_body]
fn sign_certificate(
    params: &CertificateParams,
    key: &KeyPair,
    issuer: &Issuer<'static, KeyPair>,
) -> Result<Vec<u8>, rcgen::Error> {
    params.signed_by(key, issuer).map(|c| c.der().to_vec())
}

/// `CertificateParams::self_signed`: the certificate signed by its own key,
/// as PEM (`Certificate::pem`).
#[verifier::external_body]
fn self_sign_certificate(params: &CertificateParams, key: &KeyPair) -> Result<String, rcgen::Error> {
    params.self_signed(key).map(|c| c.pem())
}

/// `KeyPair::serialize_der`: the key pair as PKCS#8 DER.
#[verifier::external_body]
fn key_pair_der(key: &KeyPair) -> Vec<u8> {
    key.serialize_der()
}

/// `KeyPair::serialize_pem`: the key pair as PKCS#8 PEM.
#[verifier::external_body]
fn key_pair_pem(key: &KeyPair) -> String {
    key.serialize_pem()
}

/// `Issuer::from_ca_cert_pem`: an issuer made of a PEM CA certificate and
/// its key.
#[verifier::external_body]
fn issuer_from_pem(pem: &str, key: KeyPair) -> Result<Issuer<'static, KeyPair>, rcgen::Error> {
    Issuer::from_ca_cert_pem(pem, key)
}

/// `Issuer::from_ca_cert_der`: an issuer made of a DER CA certificate and
/// its key.
#[verifier::external_body]
fn issuer_from_der(der: &Vec<u8>, key: KeyPair) -> Result<Issuer<'static, KeyPair>, rcgen::Error> {
    Issuer::from_ca_cert_der(&CertificateDer::from(der.as_slice()), key)
}

/// The DER bytes of the first certificate section of PEM text, if it has
/// one that decodes (what `CertificateDer::from_pem_slice` yields).
pub uninterp spec fn first_pem_certificate(pem: Seq<u8>) -> Option<Seq<u8>>;

/// `CertificateDer::from_pem_slice`: the first certificate in PEM text, as
/// DER.
#[verifier::external_body]
pub(crate) fn certificate_der_from_pem(pem: &[u8]) -> (r: Result<Vec<u8>, tokio_rustls::rustls::pki_types::pem::Error>)
    ensures
        r matches Ok(d) ==> first_pem_certificate(pem@) == Some(d@),
        r is Err ==> first_pem_certificate(pem@) is None,
{
    CertificateDer::from_pem_slice(pem).map(|c| c.to_vec())
}

/// Whether the first private-key section of PEM text (PKCS#1, SEC1 or
/// PKCS#8) decodes, as `PrivateKeyDer::from_pem_slice` finds it.
pub uninterp spec fn pem_private_key_found(pem: Seq<u8>) -> bool;

/// `PrivateKeyDer::from_pem_slice`: the first private key in PEM text.
#[verifier::external_body]
fn private_key_from_pem(pem: &[u8]) -> (r: Result<PrivateKeyDer<'static>, tokio_rustls::rustls::pki_types::pem::Error>)
    ensures
        r is Ok == pem_private_key_found(pem@),
{
    PrivateKeyDer::from_pem_slice(pem)
}

/// `PrivateKeyDer::try_from`: a private key from DER, which must be PKCS#1,
/// SEC1 or PKCS#8.
#[verifier::external_body]
fn private_key_from_der(der: Vec<u8>) -> Result<PrivateKeyDer<'static>, &'static str> {
    PrivateKeyDer::try_from(der)
}

/// `KeyPair::from_der_and_sign_algo`: a key pair for the algorithm from a
/// private key.
#[verifier::external_body]
fn key_pair_from_private_key(key: &PrivateKeyDer<'static>, alg: KeyAlgorithm) -> Result<KeyPair, rcgen::Error> {
    match alg {
        KeyAlgorithm::EcdsaP256Sha256 => KeyPair::from_der_and_sign_algo(key, &rcgen::PKCS_ECDSA_P256_SHA256),
    }
}

/// `CertifiedKey::new`: the certificate chain with its signing key, made
/// from the private key by `any_supported_type` (ring), which fails when no
/// signer supports the key.
#[verifier::external_body]
fn certified_key(cert_der: Vec<u8>, key: &PrivateKeyDer<'static>) -> Result<CertifiedKey, tokio_rustls::rustls::Error> {
    any_supported_type(key).map(|k| CertifiedKey::new(vec![CertificateDer::from(cert_der)], k))
}

} // verus!

verus! {

/// The root certificate and its key, as PEM text.
pub struct CaPem {
    cert: String,
    key: String,
}

impl CaPem {
    pub closed spec fn cert_text(self) -> Seq<char> {
        self.cert@
    }

    pub closed spec fn key_text(self) -> Seq<char> {
        self.key@
    }

    /// The certificate's PEM text.
    pub fn cert(&self) -> (r: &str)
        ensures
            r@ == self.cert_text(),
    {
        self.cert.as_str()
    }

    /// The private key's PEM text.
    pub fn key(&self) -> (r: &str)
        ensures
            r@ == self.key_text(),
    {
        self.key.as_str()
    }
}

/// The certificate authority: signs leaf certificates with the root key.
pub struct Ca {
    issuer: Issuer<'static, KeyPair>,
}

/// Part `i` of a request's distinguished name is `value`, of kind `part`.
pub open spec fn name_is(req: CertRequest, i: int, part: NamePart, value: Seq<char>) -> bool {
    req.name@[i].0 == part && req.name@[i].1@ == value
}

/// What a leaf certificate for `domains` is made from: the domains as its
/// subject alternative names and as its common name, usable for signatures
/// by TLS servers.
pub open spec fn is_leaf_request(req: CertRequest, domains: Seq<&str>) -> bool {
    &&& req.alt_names@.len() == domains.len()
    &&& forall|i: int| 0 <= i < domains.len() ==> #[trigger] req.alt_names@[i]@ == domains[i]@
    &&& req.name@.len() == domains.len()
    &&& forall|i: int|
        0 <= i < domains.len() ==> #[trigger] name_is(req, i, NamePart::CommonName, domains[i]@)
    &&& req.key_usages@ == seq![KeyUsage::DigitalSignature]
    &&& req.extended_key_usages@ == seq![ExtendedKeyUsage::ServerAuth]
    &&& req.ca_path_length is None
}

/// What the root certificate is made from: no alternative names; the CA's
/// name, the organisation and `user_and_host` in its distinguished name;
/// usable to sign certificates and revocation lists; no CA below it.
pub open spec fn is_root_request(req: CertRequest, user_and_host: Seq<char>) -> bool {
    &&& req.alt_names@.len() == 0
    &&& req.name@.len() == 3
    &&& name_is(req, 0, NamePart::CommonName, CERT_NAME@)
    &&& name_is(req, 1, NamePart::OrganizationName, ORGANIZATION_NAME@)
    &&& name_is(req, 2, NamePart::OrganizationalUnitName, user_and_host)
    &&& req.key_usages@ == seq![KeyUsage::KeyCertSign, KeyUsage::CrlSign]
    &&& req.extended_key_usages@.len() == 0
    &&& req.ca_path_length == Some(0u8)
}

/// The request for a leaf certificate for `domains`.
pub fn leaf_request(domains: &[&str]) -> (r: CertRequest)
    ensures
        is_leaf_request(r, domains@),
{
    let mut alt_names: Vec<String> = Vec::new();
    let mut name: Vec<(NamePart, String)> = Vec::new();
    let mut i: usize = 0;
    while i < domains.len()
        invariant
            0 <= i <= domains@.len(),
            alt_names@.len() == i,
            name@.len() == i,
            forall|j: int| 0 <= j < i ==> #[trigger] alt_names@[j]@ == domains@[j]@,
            forall|j: int|
                0 <= j < i ==> (#[trigger] name@[j]).0 == NamePart::CommonName && name@[j].1@
                    == domains@[j]@,
        decreases domains@.len() - i,
    {
        let d = domains[i];
        alt_names.push(d.to_string());
        name.push((NamePart::CommonName, d.to_string()));
        i = i + 1;
    }
    let r = CertRequest {
        alt_names,
        name,
        key_usages: vec![KeyUsage::DigitalSignature],
        extended_key_usages: vec![ExtendedKeyUsage::ServerAuth],
        ca_path_length: None,
    };
    assert forall|j: int| 0 <= j < domains@.len() implies #[trigger] name_is(
        r,
        j,
        NamePart::CommonName,
        domains@[j]@,
    ) by {
        assert(r.name@[j] == name@[j]);
    }
    assert(r.key_usages@ =~= seq![KeyUsage::DigitalSignature]);
    assert(r.extended_key_usages@ =~= seq![ExtendedKeyUsage::ServerAuth]);
    r
}

/// The request for the root certificate.
pub fn root_request(user_and_host: &str) -> (r: CertRequest)
    ensures
        is_root_request(r, user_and_host@),
{
    let name = vec![
        (NamePart::CommonName, CERT_NAME.to_string()),
        (NamePart::OrganizationName, ORGANIZATION_NAME.to_string()),
        (NamePart::OrganizationalUnitName, user_and_host.to_string()),
    ];
    CertRequest {
        alt_names: Vec::new(),
        name,
        key_usages: vec![KeyUsage::KeyCertSign, KeyUsage::CrlSign],
        extended_key_usages: Vec::new(),
        ca_path_length: Some(0),
    }
}

/// The organisational unit of the root certificate: `user@host`, with the
/// `user@` left out when the user is unknown and the host empty when it is.
pub fn user_and_host(user: Option<String>, host: Option<String>) -> (r: String)
    ensures
        r@ == (match user {
            Some(u) => u@ + "@"@,
            None => Seq::empty(),
        }) + match host {
            Some(h) => h@,
            None => Seq::empty(),
        },
{
    let mut r = String::new();
    match user {
        Some(u) => {
            r.append(u.as_str());
            r.append("@");
        },
        None => {},
    }
    match host {
        Some(h) => r.append(h.as_str()),
        None => {},
    }
    r
}

/// Certificate parameters made as `req` says. Fails when an alternative
/// name is neither an IP address nor ASCII.
fn build_params(req: &CertRequest) -> (r: Result<CertificateParams, rcgen::Error>)
    ensures
        r.is_err() == has_non_ascii_name(req.alt_names@),
{
    let mut params = match certificate_params(req.alt_names.clone()) {
        Ok(p) => p,
        Err(e) => return Err(e),
    };
    let mut i: usize = 0;
    while i < req.name.len()
        invariant
            0 <= i <= req.name@.len(),
        decreases req.name@.len() - i,
    {
        let (part, value) = &req.name[i];
        push_name_part(&mut params, *part, value.as_str());
        i = i + 1;
    }
    set_key_usages(&mut params, &req.key_usages);
    set_extended_key_usages(&mut params, &req.extended_key_usages);
    match req.ca_path_length {
        Some(depth) => set_ca_path_length(&mut params, depth),
        None => {},
    }
    Ok(params)
}

impl Ca {
    /// Makes a new root CA: a fresh P-256 key and a self-signed certificate
    /// for it, made as [`root_request`] says; returns their PEM text and the
    /// CA. Every failure comes from key generation, signing or reading the
    /// certificate back.
    pub fn generate(user_and_host: &str) -> (r: Result<(CaPem, Ca), CaError>)
        ensures
            r matches Err(e) ==> e == CaError::KeyGeneration || e == CaError::Signing || e
                == CaError::InvalidCertificate,
    {
        let ca_key = match new_key_pair(KeyAlgorithm::EcdsaP256Sha256) {
            Ok(k) => k,
            Err(_) => return Err(CaError::KeyGeneration),
        };
        let req = root_request(user_and_host);
        assert(!has_non_ascii_name(req.alt_names@));
        let params = match build_params(&req) {
            Ok(p) => p,
            Err(_) => return Err(CaError::InvalidName),
        };
        let ca_pem = match self_sign_certificate(&params, &ca_key) {
            Ok(p) => p,
            Err(_) => return Err(CaError::Signing),
        };
        let key_pem = key_pair_pem(&ca_key);
        let issuer = match issuer_from_pem(ca_pem.as_str(), ca_key) {
            Ok(i) => i,
            Err(_) => return Err(CaError::InvalidCertificate),
        };
        Ok((CaPem { cert: ca_pem, key: key_pem }, Ca { issuer }))
    }

    /// A certificate for `domains` (made as [`leaf_request`] says, with a
    /// fresh P-256 key), signed by the CA, ready for TLS. Fails with
    /// `NoDomains` exactly when `domains` is empty, and always when a domain
    /// is neither an IP address nor ASCII (with `InvalidName`, unless key
    /// generation failed first).
    pub fn sign(&self, domains: &[&str]) -> (r: Result<CertifiedKey, CaError>)
        ensures
            (r == Err::<CertifiedKey, CaError>(CaError::NoDomains)) <==> domains@.len() == 0,
            (r == Err::<CertifiedKey, CaError>(CaError::InvalidName)) ==> exists|i: int|
                0 <= i < domains@.len() && !is_ascii_text(#[trigger] domains@[i]@),
            (exists|i: int| 0 <= i < domains@.len() && !is_ascii_text(#[trigger] domains@[i]@))
                ==> r.is_err(),
            r matches Err(e) ==> e != CaError::CertificateFormat && e != CaError::KeyFormat && e
                != CaError::InvalidKey && e != CaError::InvalidCertificate,
    {
        if domains.len() == 0 {
            return Err(CaError::NoDomains);
        }
        let domain_key = match new_key_pair(KeyAlgorithm::EcdsaP256Sha256) {
            Ok(k) => k,
            Err(_) => return Err(CaError::KeyGeneration),
        };
        let req = leaf_request(domains);
        let params = match build_params(&req) {
            Ok(p) => p,
            Err(_) => {
                proof {
                    let i = choose|i: int|
                        0 <= i < req.alt_names@.len() && !is_ascii_text(
                            #[trigger] req.alt_names@[i]@,
                        );
                    assert(req.alt_names@[i]@ == domains@[i]@);
                }
                return Err(CaError::InvalidName);
            },
        };
        proof {
            assert forall|i: int| 0 <= i < domains@.len() implies is_ascii_text(
                #[trigger] domains@[i]@,
            ) by {
                assert(req.alt_names@[i]@ == domains@[i]@);
            }
        }
        let cert_der = match sign_certificate(&params, &domain_key, &self.issuer) {
            Ok(d) => d,
            Err(_) => return Err(CaError::Signing),
        };
        let key_der = match private_key_from_der(key_pair_der(&domain_key)) {
            Ok(k) => k,
            Err(_) => return Err(CaError::KeyEncoding),
        };
        match certified_key(cert_der, &key_der) {
            Ok(c) => Ok(c),
            Err(_) => Err(CaError::UnsupportedKey),
        }
    }

    /// The CA whose certificate and P-256 PKCS#8 key are in this PEM text.
    /// Every failure names what could not be read: the certificate text is
    /// read first, then the key text, then the key, then the certificate.
    pub fn from_pem(cert_pem: &[u8], key_pem: &[u8]) -> (r: Result<Ca, CaError>)
        ensures
            r matches Err(e) ==> e == CaError::CertificateFormat || e == CaError::KeyFormat || e
                == CaError::InvalidKey || e == CaError::InvalidCertificate,
            (r == Err::<Ca, CaError>(CaError::CertificateFormat)) <==> first_pem_certificate(
                cert_pem@,
            ) is None,
            (r == Err::<Ca, CaError>(CaError::KeyFormat)) <==> (first_pem_certificate(cert_pem@) is Some
                && !pem_private_key_found(key_pem@)),
    {
        let cert_der = match certificate_der_from_pem(cert_pem) {
            Ok(d) => d,
            Err(_) => return Err(CaError::CertificateFormat),
        };
        let key_der = match private_key_from_pem(key_pem) {
            Ok(k) => k,
            Err(_) => return Err(CaError::KeyFormat),
        };
        let ca_key = match key_pair_from_private_key(&key_der, KeyAlgorithm::EcdsaP256Sha256) {
            Ok(k) => k,
            Err(_) => return Err(CaError::InvalidKey),
        };
        match issuer_from_der(&cert_der, ca_key) {
            Ok(issuer) => Ok(Ca { issuer }),
            Err(_) => Err(CaError::InvalidCertificate),
        }
    }
}

/// The words for each error.
pub open spec fn ca_error_text(e: CaError) -> Seq<char> {
    match e {
        CaError::NoDomains => "At least one domain required"@,
        CaError::KeyGeneration => "Failed to generate a key pair"@,
        CaError::InvalidName => "A domain is neither an IP address nor ASCII"@,
        CaError::Signing => "Failed to sign the certificate"@,
        CaError::KeyEncoding => "Failed to encode the private key"@,
        CaError::UnsupportedKey => "rustls signing key error"@,
        CaError::CertificateFormat => "Failed to read CA cert"@,
        CaError::KeyFormat => "Failed to read CA key"@,
        CaError::InvalidKey => "Failed to parse the CA key"@,
        CaError::InvalidCertificate => "Failed to parse the CA certificate"@,
    }
}

impl CaError {
    /// What went wrong, in words.
    pub fn message(&self) -> (r: &'static str)
        ensures
            r@ == ca_error_text(*self),
    {
        match self {
            CaError::NoDomains => "At least one domain required",
            CaError::KeyGeneration => "Failed to generate a key pair",
            CaError::InvalidName => "A domain is neither an IP address nor ASCII",
            CaError::Signing => "Failed to sign the certificate",
            CaError::KeyEncoding => "Failed to encode the private key",
            CaError::UnsupportedKey => "rustls signing key error",
            CaError::CertificateFormat => "Failed to read CA cert",
            CaError::KeyFormat => "Failed to read CA key",
            CaError::InvalidKey => "Failed to parse the CA key",
            CaError::InvalidCertificate => "Failed to parse the CA certificate",
        }
    }
}

} // verus!
