use quic_send::server_trust::{
    build_server_trust, configure_server, leaf_public_key_matches, server_names, ConfigError,
};
use quic_send::trust::{SkipServerVerification, TrustError, TrustPolicy};

#[test]
fn skip_verification_accepts_any_certificate() {
    let policy = TrustPolicy::SkipVerification;
    assert_eq!(policy.decide(Err(TrustError::Expired)), Ok(()));
    assert_eq!(policy.decide(Err(TrustError::UntrustedChain)), Ok(()));
    assert_eq!(policy.decide(Ok(())), Ok(()));
    assert!(!policy.needs_chain_check());
}

#[test]
fn verify_against_roots_rejects_foreign_chain() {
    let policy = TrustPolicy::VerifyAgainst(vec![vec![0x30, 0x82]]);
    assert_eq!(policy.decide(Err(TrustError::UntrustedChain)), Err(TrustError::UntrustedChain));
    assert_eq!(policy.decide(Err(TrustError::NameMismatch)), Err(TrustError::NameMismatch));
    assert_eq!(policy.decide(Ok(())), Ok(()));
    assert!(policy.needs_chain_check());
}

#[test]
fn skip_verifier_accepts_self_signed() {
    let verifier = SkipServerVerification::new();
    assert_eq!(verifier.verify_server_cert(&[1, 2, 3], "localhost"), Ok(()));
    assert_eq!(verifier.verify_server_cert(&[], "elsewhere"), Ok(()));
}

#[test]
fn empty_chain_is_a_config_error() {
    let key = vec![1u8, 2, 3];
    assert!(matches!(build_server_trust(vec![], key), Err(ConfigError::EmptyChain)));
}

#[test]
fn unreadable_key_is_a_config_error() {
    let chain = vec![vec![0x30u8, 0x03, 0x02, 0x01, 0x00]];
    assert!(matches!(build_server_trust(chain, vec![9u8; 16]), Err(ConfigError::InvalidKey)));
}

#[test]
fn generated_key_loads() {
    let cert = rcgen::generate_simple_self_signed(vec!["localhost".to_string()]).unwrap();
    let der = cert.serialize_der().unwrap();
    let key = cert.serialize_private_key_der();
    assert!(build_server_trust(vec![der], key).is_ok());
}

#[test]
fn self_signed_server_configuration() {
    let (_config, cert_der) = configure_server().expect("configuration");
    assert!(!cert_der.is_empty());
    assert_eq!(cert_der[0], 0x30);
}

#[test]
fn key_of_another_certificate_is_rejected() {
    let a = rcgen::generate_simple_self_signed(vec!["localhost".to_string()]).unwrap();
    let b = rcgen::generate_simple_self_signed(vec!["localhost".to_string()]).unwrap();
    let a_der = a.serialize_der().unwrap();
    let b_key = b.serialize_private_key_der();
    assert!(matches!(build_server_trust(vec![a_der], b_key), Err(ConfigError::KeyMismatch)));
}

fn tiny_certificate(with_version: bool) -> Vec<u8> {
    let mut tbs_content = Vec::new();
    if with_version {
        tbs_content.extend_from_slice(&[0xA0, 0x03, 0x02, 0x01, 0x02]);
    }
    tbs_content.extend_from_slice(&[0x02, 0x01, 0x01, 0x30, 0x00, 0x30, 0x00, 0x30, 0x00]);
    tbs_content.extend_from_slice(&[0x30, 0x02, 0x05, 0x00]);
    tbs_content.extend_from_slice(&[0x30, 0x02, 0x05, 0x01]);
    let mut tbs = vec![0x30, tbs_content.len() as u8];
    tbs.extend(tbs_content);
    let mut cert = vec![0x30, tbs.len() as u8];
    cert.extend(tbs);
    cert
}

#[test]
fn leaf_public_key_is_its_own_field() {
    for with_version in [true, false] {
        let cert = tiny_certificate(with_version);
        assert!(leaf_public_key_matches(&cert, &vec![0x30, 0x02, 0x05, 0x01]));
        assert!(!leaf_public_key_matches(&cert, &vec![0x30, 0x02, 0x05, 0x00]));
        assert!(!leaf_public_key_matches(&cert, &vec![0x05, 0x01]));
        assert!(!leaf_public_key_matches(&cert, &vec![]));
    }
    assert!(!leaf_public_key_matches(&vec![0x30, 0x05, 0x30], &vec![0x30, 0x00]));
    assert!(!leaf_public_key_matches(&vec![], &vec![]));
}

#[test]
fn generated_certificate_carries_its_key() {
    let a = rcgen::generate_simple_self_signed(vec!["localhost".to_string()]).unwrap();
    let b = rcgen::generate_simple_self_signed(vec!["localhost".to_string()]).unwrap();
    let a_der = a.serialize_der().unwrap();
    let a_pub = rcgen::KeyPair::from_der(&a.serialize_private_key_der()).unwrap().public_key_der();
    let b_pub = rcgen::KeyPair::from_der(&b.serialize_private_key_der()).unwrap().public_key_der();
    assert!(leaf_public_key_matches(&a_der, &a_pub));
    assert!(!leaf_public_key_matches(&a_der, &b_pub));
}

#[test]
fn generated_certificate_names_localhost() {
    assert_eq!(server_names(), vec!["localhost".to_string()]);
}
