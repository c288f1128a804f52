//! Trust policy of the two roles: the server's certificate material and the
//! client's rule for accepting the server's certificate.
use std::sync::Arc;
use vstd::prelude::*;

verus! {

/// Why the server's certificate was not accepted.
#[derive(Clone, Copy, Debug, PartialEq, Eq, Structural)]
pub enum TrustError {
    /// The chain does not lead to any of the trusted roots.
    UntrustedChain,
    /// A certificate of the chain has expired or is not yet valid.
    Expired,
    /// The certificate does not name the expected server.
    NameMismatch,
    /// The certificate could not be read.
    Malformed,
}

/// The client's rule for accepting the server's certificate.
///
/// Skipping verification is a variant of its own, named as such, so that it
/// is never what a configuration falls back to.
#[derive(Debug)]
pub enum TrustPolicy {
    /// Standard chain validation against these DER-encoded root certificates.
    VerifyAgainst(Vec<Vec<u8>>),
    /// Accept any certificate the server presents (vulnerable to a man in
    /// the middle; for controlled and test deployments only).
    SkipVerification,
}

impl TrustPolicy {
    /// What the policy concludes, given the outcome of standard chain
    /// validation of the presented certificate against the policy's roots.
    pub open spec fn spec_decide(self, chain_check: Result<(), TrustError>) -> Result<(), TrustError> {
        match self {
            TrustPolicy::VerifyAgainst(_) => chain_check,
            TrustPolicy::SkipVerification => Ok(()),
        }
    }

    /// Decides on the presented certificate. Under `VerifyAgainst` the
    /// outcome of chain validation stands; under `SkipVerification` the
    /// certificate is accepted whatever validation said.
    pub fn decide(&self, chain_check: Result<(), TrustError>) -> (r: Result<(), TrustError>)
        ensures
            r == self.spec_decide(chain_check),
    {
        match self {
            TrustPolicy::VerifyAgainst(_) => chain_check,
            TrustPolicy::SkipVerification => Ok(()),
        }
    }

    /// Whether chain validation has to run at all under this policy.
    pub fn needs_chain_check(&self) -> (r: bool)
        ensures
            r <==> self is VerifyAgainst,
    {
        match self {
            TrustPolicy::VerifyAgainst(_) => true,
            TrustPolicy::SkipVerification => false,
        }
    }
}

/// Skipping verification accepts every certificate, whatever chain
/// validation would say of it (self-signed, expired, foreign); verifying
/// against roots rejects every certificate that validation rejects, with the
/// same error.
pub proof fn trust_policy_decisions(roots: Vec<Vec<u8>>, chain_check: Result<(), TrustError>)
    ensures
        TrustPolicy::SkipVerification.spec_decide(chain_check) == Ok::<(), TrustError>(()),
        chain_check is Err ==> TrustPolicy::VerifyAgainst(roots).spec_decide(chain_check)
            == chain_check,
        TrustPolicy::VerifyAgainst(roots).spec_decide(chain_check) is Ok ==> chain_check is Ok,
{
}

/// The verifier of the `SkipVerification` policy: it treats any certificate
/// as valid.
pub struct SkipServerVerification;

impl SkipServerVerification {
    /// A shared handle on the verifier, as a TLS client configuration holds it.
    pub fn new() -> (r: Arc<Self>)
        ensures
            *r == SkipServerVerification,
    {
        Arc::new(SkipServerVerification)
    }

    /// Accepts the presented certificate unconditionally.
    pub fn verify_server_cert(&self, end_entity: &[u8], server_name: &str) -> (r: Result<(), TrustError>)
        ensures
            r == Ok::<(), TrustError>(()),
    {
        Ok(())
    }
}

} // verus!
