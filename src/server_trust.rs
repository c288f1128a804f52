//! The server's TLS configuration: one certificate chain bound to its
//! private key, with certificate material generated on demand.
use std::sync::Arc;
use crate::der::{certificate_public_key, public_key_range_exec};
use vstd::prelude::*;

verus! {

#[verifier::external_type_specification]
#[verifier::external_body]
pub struct ExServerConfig(quinn::ServerConfig);

#[verifier::external_type_specification]
#[verifier::external_body]
pub struct ExTlsError(rustls::Error);

#[verifier::external_type_specification]
#[verifier::external_body]
pub struct ExRcgenError(rcgen::RcgenError);

/// Whether rcgen can read these DER bytes as a PKCS#8 key pair (Ed25519,
/// ECDSA P-256 or P-384, or RSA).
pub uninterp spec fn key_pair_reads(key: Seq<u8>) -> bool;

/// The SubjectPublicKeyInfo (DER) of the key pair read from these bytes, as
/// rcgen encodes it.
pub uninterp spec fn public_key_info(key: Seq<u8>) -> Seq<u8>;

/// Whether rustls can load these DER bytes as a signing key of a type it
/// supports (RSA, ECDSA or Ed25519).
pub uninterp spec fn signing_key_loads(key: Seq<u8>) -> bool;

/// Malformed server trust material.
#[derive(Clone, Copy, Debug, PartialEq, Eq, Structural)]
pub enum ConfigError {
    /// No certificate was given.
    EmptyChain,
    /// The private key could not be loaded. The key is read as PKCS#8:
    /// PKCS#1 RSA and SEC1 EC keys are refused here.
    InvalidKey,
    /// The private key does not belong to the chain's leaf certificate.
    KeyMismatch,
    /// Certificate material could not be generated or encoded.
    Generation,
}

/// Relies on quinn::ServerConfig::with_single_cert, which builds a TLS 1.3
/// rustls configuration around the chain and fails exactly when rustls
/// cannot load the private key.
#[verifier::external_body]
fn server_config_with_single_cert(cert_chain: Vec<Vec<u8>>, key: Vec<u8>) -> (r: Result<
    quinn::ServerConfig,
    rustls::Error,
>)
    ensures
        r is Ok <==> signing_key_loads(key@),
{
    let chain = cert_chain.into_iter().map(rustls::Certificate).collect();
    quinn::ServerConfig::with_single_cert(chain, rustls::PrivateKey(key))
}

/// Relies on quinn::TransportConfig::max_concurrent_uni_streams: the
/// configuration's transport becomes the default one, with at most `limit`
/// unidirectional streams open to the peer at a time.
#[verifier::external_body]
fn set_uni_stream_limit(config: &mut quinn::ServerConfig, limit: u32) {
    let mut transport = quinn::TransportConfig::default();
    transport.max_concurrent_uni_streams(limit.into());
    config.transport = Arc::new(transport);
}

/// Relies on rcgen::KeyPair::from_der, which fails exactly when the bytes
/// are no PKCS#8 key pair that rcgen reads, and on
/// rcgen::KeyPair::public_key_der for the pair it read: its public key as
/// an X.509 SubjectPublicKeyInfo.
#[verifier::external_body]
fn public_key_of(key: &Vec<u8>) -> (r: Result<Vec<u8>, rcgen::RcgenError>)
    ensures
        r is Ok <==> key_pair_reads(key@),
        r is Ok ==> r->Ok_0@ == public_key_info(key@),
{
    match rcgen::KeyPair::from_der(key) {
        Ok(pair) => Ok(pair.public_key_der()),
        Err(e) => Err(e),
    }
}

/// Relies on rcgen::generate_simple_self_signed (a fresh ECDSA P-256 key
/// pair and a self-signed certificate for these names), with
/// rcgen::Certificate::serialize_der and serialize_private_key_der: the
/// certificate (DER) and its PKCS#8 private key. The certificate carries the
/// key pair's SubjectPublicKeyInfo, written as `public_key_der` writes it.
#[verifier::external_body]
fn generate_self_signed(names: Vec<String>) -> (r: Result<(Vec<u8>, Vec<u8>), rcgen::RcgenError>)
    ensures
        r is Ok ==> key_matches_leaf(r->Ok_0.0@, r->Ok_0.1@) && signing_key_loads(r->Ok_0.1@),
{
    let cert = rcgen::generate_simple_self_signed(names)?;
    let cert_der = cert.serialize_der()?;
    Ok((cert_der, cert.serialize_private_key_der()))
}

/// Whether `needle` occurs in `hay` at offset `i`.
pub open spec fn run_at(hay: Seq<u8>, needle: Seq<u8>, i: int) -> bool {
    0 <= i && i + needle.len() <= hay.len() && hay.subrange(i, i + needle.len()) == needle
}

/// Whether the private key belongs to the leaf certificate: the key pair
/// reads, and the certificate's own SubjectPublicKeyInfo is its public key.
pub open spec fn key_matches_leaf(leaf: Seq<u8>, key: Seq<u8>) -> bool {
    key_pair_reads(key) && certificate_public_key(leaf) == Some(public_key_info(key))
}

fn run_at_exec(hay: &Vec<u8>, needle: &Vec<u8>, i: usize) -> (r: bool)
    requires
        i + needle@.len() <= hay@.len(),
    ensures
        r == run_at(hay@, needle@, i as int),
{
    let hay_len = hay.len();
    let mut j: usize = 0;
    while j < needle.len()
        invariant
            i + needle@.len() <= hay@.len(),
            hay_len == hay@.len(),
            j <= needle@.len(),
            forall|t: int| 0 <= t < j ==> hay@[i + t] == needle@[t],
        decreases needle@.len() - j,
    {
        if hay[i + j] != needle[j] {
            assert(hay@.subrange(i as int, i + needle@.len())[j as int] != needle@[j as int]);
            return false;
        }
        j = j + 1;
    }
    assert(hay@.subrange(i as int, i + needle@.len()) =~= needle@);
    true
}

/// Whether the certificate's (DER) own SubjectPublicKeyInfo is exactly
/// `public_key` (DER).
pub fn leaf_public_key_matches(leaf: &Vec<u8>, public_key: &Vec<u8>) -> (r: bool)
    ensures
        r == (certificate_public_key(leaf@) == Some(public_key@)),
{
    match public_key_range_exec(leaf) {
        None => false,
        Some((q, e)) => {
            if e - q != public_key.len() {
                assert(leaf@.subrange(q as int, e as int).len() != public_key@.len());
                return false;
            }
            run_at_exec(leaf, public_key, q)
        },
    }
}

/// Builds the server's configuration from one certificate chain and its
/// private key (both DER). The key must belong to the chain's leaf (the
/// first certificate). Peers may open bidirectional streams only.
pub fn build_server_trust(cert_chain: Vec<Vec<u8>>, private_key: Vec<u8>) -> (r: Result<
    quinn::ServerConfig,
    ConfigError,
>)
    ensures
        cert_chain@.len() == 0 ==> r == Err::<quinn::ServerConfig, ConfigError>(
            ConfigError::EmptyChain,
        ),
        cert_chain@.len() > 0 && !key_pair_reads(private_key@) ==> r == Err::<
            quinn::ServerConfig,
            ConfigError,
        >(ConfigError::InvalidKey),
        cert_chain@.len() > 0 && key_pair_reads(private_key@) && !key_matches_leaf(
            cert_chain@[0]@,
            private_key@,
        ) ==> r == Err::<quinn::ServerConfig, ConfigError>(ConfigError::KeyMismatch),
        cert_chain@.len() > 0 && key_matches_leaf(cert_chain@[0]@, private_key@) ==> (r is Ok
            <==> signing_key_loads(private_key@)),
        cert_chain@.len() > 0 && key_matches_leaf(cert_chain@[0]@, private_key@)
            && !signing_key_loads(private_key@) ==> r == Err::<quinn::ServerConfig, ConfigError>(
            ConfigError::InvalidKey,
        ),
        r is Ok ==> cert_chain@.len() > 0 && key_matches_leaf(cert_chain@[0]@, private_key@),
{
    if cert_chain.len() == 0 {
        return Err(ConfigError::EmptyChain);
    }
    let public_key = match public_key_of(&private_key) {
        Ok(k) => k,
        Err(_) => return Err(ConfigError::InvalidKey),
    };
    if !leaf_public_key_matches(&cert_chain[0], &public_key) {
        return Err(ConfigError::KeyMismatch);
    }
    match server_config_with_single_cert(cert_chain, private_key) {
        Ok(mut config) => {
            set_uni_stream_limit(&mut config, 0);
            Ok(config)
        },
        Err(_) => Err(ConfigError::InvalidKey),
    }
}

/// The names that a generated server certificate is made for: the one the
/// sender connects to.
pub fn server_names() -> (r: Vec<String>)
    ensures
        r@.len() == 1,
        r@[0]@ == "localhost"@,
{
    let names: Vec<String> = vec![String::from_str("localhost")];
    proof {
        reveal_strlit("localhost");
    }
    names
}

/// Generates a self-signed certificate for `localhost` and builds the
/// server's configuration around it; returns the configuration and the
/// certificate (DER), which a client may take as its root.
pub fn configure_server() -> (r: Result<(quinn::ServerConfig, Vec<u8>), ConfigError>)
    ensures
        r is Err ==> r->Err_0 == ConfigError::Generation,
        r is Ok ==> exists|k: Seq<u8>| key_matches_leaf(r->Ok_0.1@, k) && signing_key_loads(k),
{
    let (cert_der, key) = match generate_self_signed(server_names()) {
        Ok(material) => material,
        Err(_) => return Err(ConfigError::Generation),
    };
    let chain: Vec<Vec<u8>> = vec![cert_der.clone()];
    assert(chain@[0]@ == cert_der@);
    match build_server_trust(chain, key) {
        Ok(config) => Ok((config, cert_der)),
        Err(e) => Err(e),
    }
}

} // verus!
