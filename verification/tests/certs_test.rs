use sidedns_core::certs::{
    leaf_request, root_request, user_and_host, Ca, CaError, ExtendedKeyUsage, KeyUsage, NamePart,
};

fn ca() -> Ca {
    Ca::generate("tester@host").unwrap().1
}

#[test]
fn generate_and_sign() {
    let cert = ca().sign(&["api.local"]).unwrap();
    assert!(!cert.cert.is_empty());
}

#[test]
fn generate_sign_multiple_sans() {
    let cert = ca().sign(&["api.local", "auth.local", "*.dev.local"]).unwrap();
    assert!(!cert.cert.is_empty());
}

#[test]
fn save_and_load_produces_valid_issuer() {
    let (pem, _) = Ca::generate("tester@host").unwrap();
    let loaded = Ca::from_pem(pem.cert().as_bytes(), pem.key().as_bytes()).unwrap();
    let cert = loaded.sign(&["api.local"]).unwrap();
    assert!(!cert.cert.is_empty());
}

#[test]
fn generate_produces_non_empty_pems() {
    let (pem, _) = Ca::generate("tester@host").unwrap();
    assert!(!pem.cert().is_empty());
    assert!(!pem.key().is_empty());
}

#[test]
fn generate_cert_pem_has_correct_markers() {
    let (pem, _) = Ca::generate("tester@host").unwrap();
    assert!(pem.cert().contains("-----BEGIN CERTIFICATE-----"));
    assert!(pem.cert().contains("-----END CERTIFICATE-----"));
}

#[test]
fn generate_key_pem_has_correct_markers() {
    let (pem, _) = Ca::generate("tester@host").unwrap();
    assert!(pem.key().contains("-----BEGIN"));
}

#[test]
fn two_generates_produce_different_keys() {
    let (pem1, _) = Ca::generate("tester@host").unwrap();
    let (pem2, _) = Ca::generate("tester@host").unwrap();
    assert_ne!(pem1.key(), pem2.key());
    assert_ne!(pem1.cert(), pem2.cert());
}

#[test]
fn sign_single_domain() {
    let ck = ca().sign(&["api.local"]).unwrap();
    assert!(!ck.cert.is_empty());
}

#[test]
fn sign_empty_domains_errors() {
    assert!(ca().sign(&[]).is_err());
}

#[test]
fn sign_wildcard_domain() {
    let ck = ca().sign(&["*.local"]).unwrap();
    assert!(!ck.cert.is_empty());
}

#[test]
fn sign_multiple_sans() {
    let ck = ca().sign(&["api.local", "auth.local", "*.dev.local"]).unwrap();
    assert!(!ck.cert.is_empty());
}

#[test]
fn sign_localhost() {
    let ck = ca().sign(&["localhost"]).unwrap();
    assert!(!ck.cert.is_empty());
}

#[test]
fn two_signs_produce_different_certs() {
    let ca = ca();
    let ck1 = ca.sign(&["api.local"]).unwrap();
    let ck2 = ca.sign(&["api.local"]).unwrap();
    assert_ne!(ck1.cert, ck2.cert);
}

#[test]
fn load_after_save_can_sign() {
    let (pem, _) = Ca::generate("tester@host").unwrap();
    let ca = Ca::from_pem(pem.cert().as_bytes(), pem.key().as_bytes()).unwrap();
    let ck = ca.sign(&["api.local"]).unwrap();
    assert!(!ck.cert.is_empty());
}

// Beyond the original's cases.

#[test]
fn sign_empty_domains_is_no_domains() {
    assert_eq!(ca().sign(&[]).err(), Some(CaError::NoDomains));
}

#[test]
fn sign_non_ascii_domain_is_invalid_name() {
    assert_eq!(ca().sign(&["café.local"]).err(), Some(CaError::InvalidName));
}

#[test]
fn sign_ip_address_name() {
    assert!(ca().sign(&["127.0.0.1"]).is_ok());
}

#[test]
fn from_pem_rejects_text_without_certificate() {
    let (pem, _) = Ca::generate("tester@host").unwrap();
    assert_eq!(
        Ca::from_pem(b"not a certificate", pem.key().as_bytes()).err(),
        Some(CaError::CertificateFormat)
    );
    assert_eq!(
        Ca::from_pem(pem.cert().as_bytes(), b"no key here").err(),
        Some(CaError::KeyFormat)
    );
}

#[test]
fn from_pem_round_trips_the_root() {
    let (pem, _) = Ca::generate("tester@host").unwrap();
    let loaded = Ca::from_pem(pem.cert().as_bytes(), pem.key().as_bytes());
    assert!(loaded.is_ok());
}

#[test]
fn leaf_request_lists_domains() {
    let req = leaf_request(&["api.local", "auth.local"]);
    assert_eq!(req.alt_names, vec!["api.local".to_string(), "auth.local".to_string()]);
    assert_eq!(
        req.name,
        vec![
            (NamePart::CommonName, "api.local".to_string()),
            (NamePart::CommonName, "auth.local".to_string())
        ]
    );
    assert_eq!(req.key_usages, vec![KeyUsage::DigitalSignature]);
    assert_eq!(req.extended_key_usages, vec![ExtendedKeyUsage::ServerAuth]);
    assert_eq!(req.ca_path_length, None);
}

#[test]
fn root_request_names_the_ca() {
    let req = root_request("me@box");
    assert!(req.alt_names.is_empty());
    assert_eq!(
        req.name,
        vec![
            (NamePart::CommonName, "SideDNS Local CA".to_string()),
            (NamePart::OrganizationName, "SideDNS".to_string()),
            (NamePart::OrganizationalUnitName, "me@box".to_string())
        ]
    );
    assert_eq!(req.key_usages, vec![KeyUsage::KeyCertSign, KeyUsage::CrlSign]);
    assert!(req.extended_key_usages.is_empty());
    assert_eq!(req.ca_path_length, Some(0));
}

#[test]
fn user_and_host_formats() {
    assert_eq!(user_and_host(Some("alice".into()), Some("box".into())), "alice@box");
    assert_eq!(user_and_host(None, Some("box".into())), "box");
    assert_eq!(user_and_host(Some("alice".into()), None), "alice@");
    assert_eq!(user_and_host(None, None), "");
}
