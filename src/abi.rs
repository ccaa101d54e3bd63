//! Solidity ABI encoding of the light client's messages, through
//! `alloy-sol-types`: the client and consensus states that the genesis
//! document and the fixtures carry, and the public outputs of the proofs.
use crate::height::{Height, TrustThreshold};
use crate::light_block::{ClientState, ConsensusState};
use crate::error::RelayError;
use alloy_sol_types::sol_data::{Array, Bool, Bytes, FixedBytes, String as SolString, Uint};
use alloy_sol_types::{SolType, Word};
use vstd::prelude::*;

verus! {

/// A client state as plain values.
pub struct ClientStateView {
    pub chain_id: Seq<char>,
    pub trust_level: TrustThreshold,
    pub latest_height: Height,
    pub is_frozen: bool,
    pub trusting_period: u32,
    pub unbonding_period: u32,
}

/// A consensus state as plain values.
pub struct ConsensusStateView {
    pub timestamp: u64,
    pub root: Seq<u8>,
    pub next_validators_hash: Seq<u8>,
}

impl View for ClientState {
    type V = ClientStateView;

    open spec fn view(&self) -> ClientStateView {
        ClientStateView {
            chain_id: self.chain_id@,
            trust_level: self.trust_level,
            latest_height: self.latest_height,
            is_frozen: self.is_frozen,
            trusting_period: self.trusting_period,
            unbonding_period: self.unbonding_period,
        }
    }
}

impl View for ConsensusState {
    type V = ConsensusStateView;

    open spec fn view(&self) -> ConsensusStateView {
        ConsensusStateView {
            timestamp: self.timestamp,
            root: self.root@,
            next_validators_hash: self.next_validators_hash@,
        }
    }
}

/// A key path and the value that a membership proof claims for it.
#[derive(Debug)]
pub struct KvPair {
    pub path: String,
    pub value: Vec<u8>,
}

/// The key paths and values of a list of pairs.
pub open spec fn kv_pairs_view(v: Seq<KvPair>) -> Seq<(Seq<char>, Seq<u8>)> {
    v.map_values(|p: KvPair| (p.path@, p.value@))
}

/// The ABI encoding of the tuple `(string chainId, (uint8, uint8) trustLevel,
/// (uint32, uint32) latestHeight, uint32 trustingPeriod, uint32
/// unbondingPeriod, bool isFrozen)`.
pub uninterp spec fn abi_client_state(
    chain_id: Seq<char>,
    numerator: u8,
    denominator: u8,
    revision_number: u32,
    revision_height: u32,
    trusting_period: u32,
    unbonding_period: u32,
    is_frozen: bool,
) -> Seq<u8>;

/// The ABI encoding of `(uint64 timestamp, bytes32 root, bytes32
/// nextValidatorsHash)`.
pub uninterp spec fn abi_consensus_state(timestamp: u64, root: Seq<u8>, next_validators_hash: Seq<u8>) -> Seq<u8>;

/// The ABI encoding of a list of `(string path, bytes value)` pairs.
pub uninterp spec fn abi_kv_pairs(pairs: Seq<(Seq<char>, Seq<u8>)>) -> Seq<u8>;

/// The trusted and the new consensus state that an ABI-encoded update output
/// `(trustedConsensusState, newConsensusState, env, trustedHeight, newHeight)`
/// holds, where the bytes decode.
pub uninterp spec fn abi_update_output(b: Seq<u8>) -> Option<(ConsensusStateView, ConsensusStateView)>;

/// The commitment root and the pairs that an ABI-encoded membership output
/// `(bytes32 commitmentRoot, (string, bytes)[] kvPairs)` holds, where the
/// bytes decode.
pub uninterp spec fn abi_membership_output(b: Seq<u8>) -> Option<(Seq<u8>, Seq<(Seq<char>, Seq<u8>)>)>;

/// The trusted and the new consensus state of the update part of an
/// ABI-encoded update-and-membership output `(updateClientOutput, kvPairs)`,
/// where the bytes decode.
pub uninterp spec fn abi_uc_and_membership_output(b: Seq<u8>) -> Option<(ConsensusStateView, ConsensusStateView)>;

/// Relies on `SolType::abi_encode` of `alloy-sol-types` for the client-state
/// tuple; the bytes depend on the values alone.
#[verifier::external_body]
pub(crate) fn abi_encode_client_state(
    chain_id: &str,
    numerator: u8,
    denominator: u8,
    revision_number: u32,
    revision_height: u32,
    trusting_period: u32,
    unbonding_period: u32,
    is_frozen: bool,
) -> (r: Vec<u8>)
    ensures
        r@ == abi_client_state(
            chain_id@,
            numerator,
            denominator,
            revision_number,
            revision_height,
            trusting_period,
            unbonding_period,
            is_frozen,
        ),
{
    let value = (
        chain_id.to_string(),
        (numerator, denominator),
        (revision_number, revision_height),
        trusting_period,
        unbonding_period,
        is_frozen,
    );
    <(SolString, (Uint<8>, Uint<8>), (Uint<32>, Uint<32>), Uint<32>, Uint<32>, Bool) as SolType>::abi_encode(&value)
}

/// Relies on `SolType::abi_encode` of `alloy-sol-types` for the
/// consensus-state tuple, and on `B256::from_slice`, which takes exactly 32
/// bytes.
#[verifier::external_body]
pub(crate) fn abi_encode_consensus_state(timestamp: u64, root: &[u8], next_validators_hash: &[u8]) -> (r: Vec<u8>)
    requires
        root@.len() == 32,
        next_validators_hash@.len() == 32,
    ensures
        r@ == abi_consensus_state(timestamp, root@, next_validators_hash@),
{
    let value = (timestamp, Word::from_slice(root), Word::from_slice(next_validators_hash));
    <(Uint<64>, FixedBytes<32>, FixedBytes<32>) as SolType>::abi_encode(&value)
}

/// Relies on `SolType::abi_encode` of `alloy-sol-types` for a
/// `(string, bytes)[]` array.
#[verifier::external_body]
pub(crate) fn abi_encode_kv_pairs(pairs: &Vec<KvPair>) -> (r: Vec<u8>)
    ensures
        r@ == abi_kv_pairs(kv_pairs_view(pairs@)),
{
    let value: Vec<(String, Vec<u8>)> = pairs.iter().map(|p| (p.path.clone(), p.value.clone())).collect();
    <Array<(SolString, Bytes)> as SolType>::abi_encode(&value)
}

/// Relies on `SolType::abi_decode` of `alloy-sol-types` for the update-output
/// tuple; a `bytes32` field decodes to 32 bytes.
#[verifier::external_body]
pub(crate) fn abi_decode_update_output(b: &[u8]) -> (r: Option<(ConsensusState, ConsensusState)>)
    ensures
        r is Some <==> abi_update_output(b@) is Some,
        r matches Some((t, n)) ==> abi_update_output(b@) == Some((t@, n@)) && t.root@.len() == 32
            && n.root@.len() == 32,
{
    let cs = |c: (u64, Word, Word)|
        ConsensusState { timestamp: c.0, root: c.1.to_vec(), next_validators_hash: c.2.to_vec() };
    <(
        (Uint<64>, FixedBytes<32>, FixedBytes<32>),
        (Uint<64>, FixedBytes<32>, FixedBytes<32>),
        (SolString, (Uint<8>, Uint<8>), Uint<32>, Uint<64>),
        (Uint<32>, Uint<32>),
        (Uint<32>, Uint<32>),
    ) as SolType>::abi_decode(b, false).ok().map(|o| (cs(o.0), cs(o.1)))
}

/// Relies on `SolType::abi_decode` of `alloy-sol-types` for the
/// membership-output tuple; a `bytes32` field decodes to 32 bytes.
#[verifier::external_body]
pub(crate) fn abi_decode_membership_output(b: &[u8]) -> (r: Option<(Vec<u8>, Vec<KvPair>)>)
    ensures
        r is Some <==> abi_membership_output(b@) is Some,
        r matches Some((root, pairs)) ==> abi_membership_output(b@) == Some(
            (root@, kv_pairs_view(pairs@)),
        ) && root@.len() == 32,
{
    <(FixedBytes<32>, Array<(SolString, Bytes)>) as SolType>::abi_decode(b, true).ok().map(
        |o| (o.0.to_vec(), o.1.into_iter().map(|(path, v)| KvPair { path, value: v.to_vec() }).collect()),
    )
}

/// Relies on `SolType::abi_decode` of `alloy-sol-types` for the
/// update-and-membership output tuple; a `bytes32` field decodes to 32 bytes.
#[verifier::external_body]
pub(crate) fn abi_decode_uc_and_membership_output(b: &[u8]) -> (r: Option<(ConsensusState, ConsensusState)>)
    ensures
        r is Some <==> abi_uc_and_membership_output(b@) is Some,
        r matches Some((t, n)) ==> abi_uc_and_membership_output(b@) == Some((t@, n@))
            && t.root@.len() == 32 && n.root@.len() == 32,
{
    let cs = |c: (u64, Word, Word)|
        ConsensusState { timestamp: c.0, root: c.1.to_vec(), next_validators_hash: c.2.to_vec() };
    <((
        (Uint<64>, FixedBytes<32>, FixedBytes<32>),
        (Uint<64>, FixedBytes<32>, FixedBytes<32>),
        (SolString, (Uint<8>, Uint<8>), Uint<32>, Uint<64>),
        (Uint<32>, Uint<32>),
        (Uint<32>, Uint<32>),
    ), Array<(SolString, Bytes)>) as SolType>::abi_decode(b, true).ok().map(|o| (cs(o.0.0), cs(o.0.1)))
}

impl ClientState {
    /// The ABI encoding of this client state.
    pub fn abi_encode(&self) -> (r: Vec<u8>)
        requires
            self.wf(),
        ensures
            r@ == abi_client_state(
                self.chain_id@,
                self.trust_level.numerator as u8,
                self.trust_level.denominator as u8,
                self.latest_height.revision_number as u32,
                self.latest_height.revision_height as u32,
                self.trusting_period,
                self.unbonding_period,
                self.is_frozen,
            ),
    {
        abi_encode_client_state(
            self.chain_id.as_str(),
            self.trust_level.numerator as u8,
            self.trust_level.denominator as u8,
            self.latest_height.revision_number as u32,
            self.latest_height.revision_height as u32,
            self.trusting_period,
            self.unbonding_period,
            self.is_frozen,
        )
    }
}

impl ConsensusState {
    /// Whether both digests are 32 bytes long, as the contract's fields are.
    pub open spec fn wf(&self) -> bool {
        self.root@.len() == 32 && self.next_validators_hash@.len() == 32
    }

    /// The ABI encoding of this consensus state, where both digests are 32
    /// bytes long.
    pub fn abi_encode(&self) -> (r: Result<Vec<u8>, RelayError>)
        ensures
            r is Ok <==> self.wf(),
            r matches Err(e) ==> e == RelayError::MalformedDigest,
            r matches Ok(b) ==> b@ == abi_consensus_state(
                self.timestamp,
                self.root@,
                self.next_validators_hash@,
            ),
    {
        if self.root.len() != 32 || self.next_validators_hash.len() != 32 {
            return Err(RelayError::MalformedDigest);
        }
        Ok(abi_encode_consensus_state(
            self.timestamp,
            self.root.as_slice(),
            self.next_validators_hash.as_slice(),
        ))
    }
}

} // verus!
