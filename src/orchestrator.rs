//! Proof requests, the ABI-encoded public values that proofs carry, and the
//! check of those values against the request.
use crate::abi::{
    abi_decode_membership_output, abi_decode_uc_and_membership_output, abi_decode_update_output,
    abi_encode_kv_pairs, abi_kv_pairs, abi_membership_output, abi_uc_and_membership_output,
    abi_update_output, ConsensusStateView,
};
use crate::error::RelayError;
use crate::height::TrustThreshold;
use crate::hex_text::{decode_hex, hex_decoding, is_hex_text};
use crate::light_block::{ConsensusState, Header};
use crate::membership::{bytes_eq, MembershipProof};
use vstd::prelude::*;

verus! {

/// The environment that an update is checked in.
#[derive(Debug)]
pub struct Env {
    pub chain_id: String,
    pub trust_threshold: TrustThreshold,
    /// Seconds.
    pub trusting_period: u32,
    /// Nanoseconds since the Unix epoch, taken when the request was built.
    pub now: u64,
}

/// What the prover is asked to prove.
#[derive(Debug)]
pub enum ProofRequest {
    /// That `header` updates a client that trusts `trusted_consensus_state`.
    UpdateClient { trusted_consensus_state: ConsensusState, header: Header, env: Env },
    /// That each proof holds under `commitment_root`.
    Membership { commitment_root: Vec<u8>, proofs: Vec<MembershipProof> },
    /// Both, with the proofs held under the root that the update produces.
    UpdateAndMembership {
        trusted_consensus_state: ConsensusState,
        header: Header,
        env: Env,
        proofs: Vec<MembershipProof>,
    },
}

/// What the prover hands back.
#[derive(Debug)]
pub struct ProofBundle {
    /// The encoded public output.
    pub public_values: Vec<u8>,
    /// The proof, as hexadecimal text.
    pub proof: String,
    /// The identifier of the verifying key.
    pub verifying_key_id: String,
}

/// What is sent to the destination chain.
#[derive(Debug)]
pub struct Submission {
    pub proof_bytes: Vec<u8>,
    pub public_values: Vec<u8>,
}

/// Why the public output `pv` does not fit `request`, if it does not: it must
/// decode, and it must start from the trusted consensus state of the request,
/// or hold the request's commitment root. An update-and-membership output
/// holds no root of its own: its pairs are proved under the root of the new
/// consensus state that the same output carries.
pub open spec fn output_error(request: &ProofRequest, pv: Seq<u8>) -> Option<RelayError> {
    match request {
        ProofRequest::UpdateClient { trusted_consensus_state, .. } => match abi_update_output(pv) {
            None => Some(RelayError::MalformedOutput),
            Some((t, _n)) => if t == trusted_consensus_state@ {
                None
            } else {
                Some(RelayError::OutputInconsistency)
            },
        },
        ProofRequest::Membership { commitment_root, .. } => match abi_membership_output(pv) {
            None => Some(RelayError::MalformedOutput),
            Some((root, _pairs)) => if root == commitment_root@ {
                None
            } else {
                Some(RelayError::OutputInconsistency)
            },
        },
        ProofRequest::UpdateAndMembership { trusted_consensus_state, .. } => match abi_uc_and_membership_output(pv) {
            None => Some(RelayError::MalformedOutput),
            Some((t, _n)) => if t == trusted_consensus_state@ {
                None
            } else {
                Some(RelayError::OutputInconsistency)
            },
        },
    }
}

/// Whether a decoded update output starts from `trusted`.
pub fn check_update_output(trusted: &ConsensusState, output_trusted: &ConsensusState) -> (r: Result<(), RelayError>)
    ensures
        r is Ok <==> output_trusted@ == trusted@,
        r matches Err(e) ==> e == RelayError::OutputInconsistency,
{
    if consensus_states_equal(output_trusted, trusted) {
        Ok(())
    } else {
        Err(RelayError::OutputInconsistency)
    }
}

/// Whether a decoded membership output holds the root `commitment_root`.
pub fn check_membership_output(commitment_root: &[u8], output_root: &[u8]) -> (r: Result<(), RelayError>)
    ensures
        r is Ok <==> output_root@ == commitment_root@,
        r matches Err(e) ==> e == RelayError::OutputInconsistency,
{
    if bytes_eq(output_root, commitment_root) {
        Ok(())
    } else {
        Err(RelayError::OutputInconsistency)
    }
}

/// Whether two consensus states are equal in every field.
pub fn consensus_states_equal(a: &ConsensusState, b: &ConsensusState) -> (r: bool)
    ensures
        r == (a@ == b@),
{
    a.timestamp == b.timestamp && bytes_eq(a.root.as_slice(), b.root.as_slice()) && bytes_eq(
        a.next_validators_hash.as_slice(),
        b.next_validators_hash.as_slice(),
    )
}

/// The new consensus state that the public output of an update proof holds.
pub fn update_output_new_consensus_state(public_values: &[u8]) -> (r: Option<ConsensusState>)
    ensures
        r is Some <==> abi_update_output(public_values@) is Some,
        r matches Some(n) ==> abi_update_output(public_values@).unwrap().1 == n@,
{
    match abi_decode_update_output(public_values) {
        Some((_t, n)) => Some(n),
        None => None,
    }
}

/// The ABI-encoded key-value pairs that the public output of a membership
/// proof holds.
pub fn membership_output_kv_pairs(public_values: &[u8]) -> (r: Option<Vec<u8>>)
    ensures
        r is Some <==> abi_membership_output(public_values@) is Some,
        r matches Some(kv) ==> kv@ == abi_kv_pairs(abi_membership_output(public_values@).unwrap().1),
{
    match abi_decode_membership_output(public_values) {
        Some((_root, pairs)) => Some(abi_encode_kv_pairs(&pairs)),
        None => None,
    }
}

/// Checks the public output `public_values` of a proof against `request`.
pub fn check_output(request: &ProofRequest, public_values: &[u8]) -> (r: Result<(), RelayError>)
    ensures
        r is Ok <==> output_error(request, public_values@) is None,
        r matches Err(e) ==> output_error(request, public_values@) == Some(e),
{
    match request {
        ProofRequest::UpdateClient { trusted_consensus_state, .. } => {
            match abi_decode_update_output(public_values) {
                None => Err(RelayError::MalformedOutput),
                Some((t, _n)) => check_update_output(trusted_consensus_state, &t),
            }
        },
        ProofRequest::Membership { commitment_root, .. } => {
            match abi_decode_membership_output(public_values) {
                None => Err(RelayError::MalformedOutput),
                Some((root, _pairs)) => check_membership_output(commitment_root.as_slice(), root.as_slice()),
            }
        },
        ProofRequest::UpdateAndMembership { trusted_consensus_state, .. } => {
            match abi_decode_uc_and_membership_output(public_values) {
                None => Err(RelayError::MalformedOutput),
                Some((t, _n)) => check_update_output(trusted_consensus_state, &t),
            }
        },
    }
}

/// Accepts a proof for `request` only where its public output fits the
/// request and its proof is hexadecimal text, and then gives what is to be
/// submitted.
pub fn validate_proof(request: &ProofRequest, bundle: &ProofBundle) -> (r: Result<
    Submission,
    RelayError,
>)
    ensures
        r is Ok <==> output_error(request, bundle.public_values@) is None && is_hex_text(bundle.proof@),
        r matches Err(e) ==> output_error(request, bundle.public_values@) is Some ==> output_error(
            request,
            bundle.public_values@,
        ) == Some(e),
        r matches Err(e) ==> output_error(request, bundle.public_values@) is None ==> e
            == RelayError::MalformedProof,
        r matches Ok(s) ==> s.proof_bytes@ == hex_decoding(bundle.proof@) && s.public_values@
            == bundle.public_values@,
        request matches ProofRequest::Membership { commitment_root, .. } ==> (abi_membership_output(
            bundle.public_values@,
        ) matches Some(o) ==> (o.0 != commitment_root@ ==> (r matches Err(e) && e
            == RelayError::OutputInconsistency))),
        request matches ProofRequest::UpdateClient { trusted_consensus_state, .. }
            ==> (abi_update_output(bundle.public_values@) matches Some(o)
            ==> (o.0 != trusted_consensus_state@ ==> (r matches Err(e) && e
            == RelayError::OutputInconsistency))),
{
    match check_output(request, bundle.public_values.as_slice()) {
        Ok(()) => {},
        Err(e) => return Err(e),
    }
    let proof_bytes = match decode_hex(bundle.proof.as_str()) {
        Some(p) => p,
        None => return Err(RelayError::MalformedProof),
    };
    Ok(
        Submission {
            proof_bytes,
            public_values: crate::light_block::copy_bytes(&bundle.public_values),
        },
    )
}

} // verus!
