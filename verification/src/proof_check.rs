use crate::error::Error;
use soroban_sdk::testutils::EnvTestConfig;
use soroban_sdk::{Bytes, Env};
use ultrahonk_soroban_verifier::UltraHonkVerifier;
use vstd::prelude::*;

verus! {

/// The length in bytes of a proof that the verifier accepts for parsing.
pub const PROOF_BYTES: usize = 14592;

/// What the verifier says of a proof.
#[derive(Copy, Clone, Debug, PartialEq, Eq, Structural)]
pub enum ProofVerdict {
    /// The key was loaded and the proof holds for the public inputs.
    Accepted,
    /// No verification key is configured; the verifier was not run.
    KeyMissing,
    /// The verification key could not be loaded.
    KeyRejected,
    /// The key was loaded and the proof does not hold.
    ProofRejected,
}

/// Whether `UltraHonkVerifier::new` loads the verification key `vk`.
pub uninterp spec fn key_loads(vk: Seq<u8>) -> bool;

/// Whether `UltraHonkVerifier::verify`, with the key `vk` loaded, accepts
/// `proof` for `public_inputs`.
pub uninterp spec fn proof_verifies(vk: Seq<u8>, proof: Seq<u8>, public_inputs: Seq<u8>) -> bool;

/// The verdict that follows from whether the key loads and whether the proof
/// holds.
pub open spec fn verdict_of(key_ok: bool, proof_ok: bool) -> ProofVerdict {
    if !key_ok {
        ProofVerdict::KeyRejected
    } else if proof_ok {
        ProofVerdict::Accepted
    } else {
        ProofVerdict::ProofRejected
    }
}

/// Runs the UltraHonk verifier: `UltraHonkVerifier::new` on the key, then
/// `UltraHonkVerifier::verify` on the proof and the public inputs, in an
/// environment of its own without a metering limit. Not proved: that the
/// verdict is the one that these two functions give for these bytes, a
/// rejected key being reported as such and any failure of `verify` as a
/// rejected proof.
#[verifier::external_body]
fn ultrahonk_verdict(vk: &Vec<u8>, proof: &Vec<u8>, public_inputs: &Vec<u8>) -> (verdict:
    ProofVerdict)
    ensures
        verdict == verdict_of(key_loads(vk@), proof_verifies(vk@, proof@, public_inputs@)),
{
    let env = Env::new_with_config(EnvTestConfig { capture_snapshot_at_drop: false });
    env.cost_estimate().budget().reset_unlimited();
    match UltraHonkVerifier::new(&env, &Bytes::from_slice(&env, vk)) {
        Err(_) => ProofVerdict::KeyRejected,
        Ok(loaded) => match loaded.verify(
            &Bytes::from_slice(&env, proof),
            &Bytes::from_slice(&env, public_inputs),
        ) {
            Ok(()) => ProofVerdict::Accepted,
            Err(_) => ProofVerdict::ProofRejected,
        },
    }
}

/// The condition that a verdict is reported as; none where the proof was
/// accepted.
pub open spec fn proof_error(verdict: ProofVerdict) -> Option<Error> {
    match verdict {
        ProofVerdict::Accepted => None,
        ProofVerdict::KeyMissing => Some(Error::VkNotSet),
        ProofVerdict::KeyRejected => Some(Error::VkParseError),
        ProofVerdict::ProofRejected => Some(Error::ProofVerificationFailed),
    }
}

/// The verdict on a proof under the configured key, if there is one.
pub open spec fn verdict_under(vk: Option<Seq<u8>>, proof: Seq<u8>, public_inputs: Seq<u8>)
    -> ProofVerdict {
    match vk {
        None => ProofVerdict::KeyMissing,
        Some(key) => verdict_of(key_loads(key), proof_verifies(key, proof, public_inputs)),
    }
}

/// The view of a verification key that may be absent.
pub open spec fn key_view(vk: Option<&Vec<u8>>) -> Option<Seq<u8>> {
    match vk {
        Some(key) => Some(key@),
        None => None,
    }
}

/// Maps a verdict to the condition it is reported as.
pub fn verdict_error(verdict: ProofVerdict) -> (e: Option<Error>)
    ensures
        e == proof_error(verdict),
{
    match verdict {
        ProofVerdict::Accepted => None,
        ProofVerdict::KeyMissing => Some(Error::VkNotSet),
        ProofVerdict::KeyRejected => Some(Error::VkParseError),
        ProofVerdict::ProofRejected => Some(Error::ProofVerificationFailed),
    }
}

/// Checks a proof against the public inputs under the configured key. The
/// verifier is not run where no key is configured.
pub fn verify_proof(vk: Option<&Vec<u8>>, proof: &Vec<u8>, public_inputs: &Vec<u8>) -> (verdict:
    ProofVerdict)
    ensures
        verdict == verdict_under(key_view(vk), proof@, public_inputs@),
{
    match vk {
        None => ProofVerdict::KeyMissing,
        Some(key) => ultrahonk_verdict(key, proof, public_inputs),
    }
}

} // verus!
