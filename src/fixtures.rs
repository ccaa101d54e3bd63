//! The requests behind the test fixtures of the contract, and their text.
use crate::error::RelayError;
use crate::height::{resolve_trusting_period, resolved_trusting_period, revision_of, TrustThreshold};
use crate::hex_text::{encode_hex, hex_encoding};
use crate::light_block::{copy_bytes, copy_string, ClientState, ConsensusState, LightBlock, LightBlockWrapper, U32_LIMIT, U8_LIMIT};
use crate::membership::{collect_membership_proofs, nodes_view, QueryResponse};
use crate::operator::block_height;
use crate::orchestrator::{Env, ProofRequest};
use vstd::prelude::*;

verus! {

/// Why no client can start out trusting `block` with these parameters.
pub open spec fn client_state_error(
    block: &LightBlock,
    trust_level: TrustThreshold,
    unbonding_period: u32,
    trusting_period: Option<u32>,
) -> Option<RelayError> {
    if resolved_trusting_period(unbonding_period, trusting_period) > unbonding_period {
        Some(RelayError::InvalidTrustParameters)
    } else if !trust_level.wf() {
        Some(RelayError::InvalidTrustParameters)
    } else if block.chain_id@.len() == 0 {
        Some(RelayError::IdentifierParseError)
    } else if revision_of(block.chain_id@) > U32_LIMIT || block.height > U32_LIMIT
        || trust_level.denominator > U8_LIMIT {
        Some(RelayError::NumericOverflow)
    } else if block.height == 0 {
        Some(RelayError::ZeroTrustedHeight)
    } else {
        None
    }
}

/// A copy of a block.
fn copy_block(b: &LightBlock) -> (r: LightBlock)
    ensures
        r.chain_id@ == b.chain_id@,
        r.height == b.height,
        r.time == b.time,
        r.app_hash@ == b.app_hash@,
        r.next_validators_hash@ == b.next_validators_hash@,
        r.signed_header@ == b.signed_header@,
        r.validators@ == b.validators@,
        r.next_validators@ == b.next_validators@,
{
    LightBlock {
        chain_id: copy_string(&b.chain_id),
        height: b.height,
        time: b.time,
        app_hash: copy_bytes(&b.app_hash),
        next_validators_hash: copy_bytes(&b.next_validators_hash),
        signed_header: copy_bytes(&b.signed_header),
        validators: copy_bytes(&b.validators),
        next_validators: copy_bytes(&b.next_validators),
    }
}

/// The client state and the consensus state that a client trusting `block`
/// starts from.
pub fn trusted_states(
    block: &LightBlock,
    trust_level: TrustThreshold,
    unbonding_period: u32,
    trusting_period: Option<u32>,
) -> (r: Result<(ClientState, ConsensusState), RelayError>)
    ensures
        r is Ok <==> client_state_error(block, trust_level, unbonding_period, trusting_period) is None,
        r matches Err(e) ==> client_state_error(block, trust_level, unbonding_period, trusting_period)
            == Some(e),
        r matches Ok((c, s)) ==> {
            &&& c.wf()
            &&& c.chain_id@ == block.chain_id@
            &&& c.trust_level == trust_level
            &&& c.latest_height == block_height(block)
            &&& !c.is_frozen
            &&& c.trusting_period == resolved_trusting_period(unbonding_period, trusting_period)
            &&& c.unbonding_period == unbonding_period
            &&& s.timestamp == block.time
            &&& s.root@ == block.app_hash@
            &&& s.next_validators_hash@ == block.next_validators_hash@
        },
{
    let trusting_period = match resolve_trusting_period(unbonding_period, trusting_period) {
        Ok(p) => p,
        Err(e) => return Err(e),
    };
    let wrapper = LightBlockWrapper(copy_block(block));
    let client_state = match wrapper.to_sol_client_state(trust_level, unbonding_period, trusting_period) {
        Ok(c) => c,
        Err(e) => return Err(e),
    };
    if block.height == 0 {
        return Err(RelayError::ZeroTrustedHeight);
    }
    Ok((client_state, wrapper.to_consensus_state()))
}

/// Why no update request can be built from `trusted` to `target`, if so.
pub open spec fn update_client_error(
    trusted: &LightBlock,
    target: &LightBlock,
    trust_level: TrustThreshold,
    unbonding_period: u32,
    trusting_period: Option<u32>,
) -> Option<RelayError> {
    if client_state_error(trusted, trust_level, unbonding_period, trusting_period) is Some {
        client_state_error(trusted, trust_level, unbonding_period, trusting_period)
    } else if target.chain_id@.len() == 0 {
        Some(RelayError::IdentifierParseError)
    } else if !block_height(trusted).spec_lt(block_height(target)) {
        Some(RelayError::HeightNotIncreasing)
    } else if trusted.height == 0 {
        Some(RelayError::ZeroTrustedHeight)
    } else {
        None
    }
}

/// The client state that trusts `trusted`, and the request to prove the
/// update from it to `target`, checked at time `now`.
pub fn update_client_request(
    trusted: &LightBlock,
    target: LightBlock,
    trust_level: TrustThreshold,
    unbonding_period: u32,
    trusting_period: Option<u32>,
    now: u64,
) -> (r: Result<(ClientState, ProofRequest), RelayError>)
    ensures
        r is Ok <==> update_client_error(&trusted, &target, trust_level, unbonding_period, trusting_period) is None,
        r matches Err(e) ==> update_client_error(&trusted, &target, trust_level, unbonding_period, trusting_period)
            == Some(e),
        !block_height(trusted).spec_lt(block_height(&target)) ==> r is Err,
        r matches Ok((c, req)) ==> {
            &&& c.chain_id@ == trusted.chain_id@
            &&& c.latest_height == block_height(trusted)
            &&& c.trusting_period == resolved_trusting_period(unbonding_period, trusting_period)
            &&& c.unbonding_period == unbonding_period
            &&& c.trust_level == trust_level
            &&& !c.is_frozen
            &&& match req {
                ProofRequest::UpdateClient { trusted_consensus_state, header, env } => {
                    &&& trusted_consensus_state.timestamp == trusted.time
                    &&& trusted_consensus_state.root@ == trusted.app_hash@
                    &&& trusted_consensus_state.next_validators_hash@ == trusted.next_validators_hash@
                    &&& header.signed_header == target.signed_header
                    &&& header.validator_set == target.validators
                    &&& header.trusted_height == block_height(trusted)
                    &&& header.trusted_next_validator_set@ == trusted.next_validators@
                    &&& env.chain_id@ == trusted.chain_id@
                    &&& env.trust_threshold == trust_level
                    &&& env.trusting_period == c.trusting_period
                    &&& env.now == now
                },
                _ => false,
            }
        },
{
    let (client_state, consensus_state) = match trusted_states(
        trusted,
        trust_level,
        unbonding_period,
        trusting_period,
    ) {
        Ok(p) => p,
        Err(e) => return Err(e),
    };
    let target_block = LightBlockWrapper::new(target);
    let target_id = match target_block.chain_id() {
        Ok(c) => c,
        Err(_) => return Err(RelayError::IdentifierParseError),
    };
    let target_height = crate::height::Height::new(target_id.revision_number(), target_block.0.height);
    if !client_state.latest_height.lt(&target_height) {
        return Err(RelayError::HeightNotIncreasing);
    }
    let header = match target_block.into_header(trusted) {
        Ok(h) => h,
        Err(e) => return Err(e),
    };
    let env = Env {
        chain_id: copy_string(&client_state.chain_id),
        trust_threshold: client_state.trust_level,
        trusting_period: client_state.trusting_period,
        now,
    };
    Ok((client_state, ProofRequest::UpdateClient { trusted_consensus_state: consensus_state, header, env }))
}

/// The client and consensus state that trust `trusted`, and the request to
/// prove the answers to the key queries under its commitment root.
pub fn membership_request(
    trusted: &LightBlock,
    trust_level: TrustThreshold,
    unbonding_period: u32,
    trusting_period: Option<u32>,
    key_paths: &Vec<String>,
    responses: &Vec<QueryResponse>,
) -> (r: Result<(ClientState, ConsensusState, ProofRequest), RelayError>)
    ensures
        client_state_error(trusted, trust_level, unbonding_period, trusting_period) is Some ==> r
            == Err::<(ClientState, ConsensusState, ProofRequest), RelayError>(
            client_state_error(trusted, trust_level, unbonding_period, trusting_period).unwrap(),
        ),
        client_state_error(trusted, trust_level, unbonding_period, trusting_period) is None ==> (r is Ok
            <==> collect_membership_proofs_ok(key_paths@, trusted.height, responses@)),
        client_state_error(trusted, trust_level, unbonding_period, trusting_period) is None ==> (r matches Err(e)
            ==> crate::membership::collect_error(key_paths@, trusted.height, responses@, e)),
        r matches Ok((c, s, req)) ==> {
            &&& c.chain_id@ == trusted.chain_id@
            &&& c.trust_level == trust_level
            &&& c.latest_height == block_height(trusted)
            &&& !c.is_frozen
            &&& c.trusting_period == resolved_trusting_period(unbonding_period, trusting_period)
            &&& c.unbonding_period == unbonding_period
            &&& s.timestamp == trusted.time
            &&& s.root@ == trusted.app_hash@
            &&& s.next_validators_hash@ == trusted.next_validators_hash@
            &&& match req {
                ProofRequest::Membership { commitment_root, proofs } => {
                    &&& commitment_root@ == trusted.app_hash@
                    &&& proofs@.len() == key_paths@.len()
                    &&& forall|i: int|
                        0 <= i < proofs@.len() ==> {
                            &&& (#[trigger] proofs@[i]).key_path@ == key_paths@[i]@
                            &&& proofs@[i].value@ == responses@[i].value@
                            &&& nodes_view(proofs@[i].proof@) == nodes_view(
                                responses@[i].proof.unwrap()@,
                            )
                            &&& proofs@[i].proof@.len() > 0
                            &&& (responses@[i].value@.len() == 0
                                ==> proofs@[i].spec_is_non_membership())
                        }
                },
                _ => false,
            }
        },
        (exists|i: int|
            0 <= i < responses@.len() && (#[trigger] responses@[i]).proof is Some
                && responses@[i].proof.unwrap()@.len() == 0) ==> r is Err,
        (exists|i: int| 0 <= i < responses@.len() && (#[trigger] responses@[i]).proof is None)
            ==> r is Err,
{
    let (client_state, consensus_state) = match trusted_states(
        trusted,
        trust_level,
        unbonding_period,
        trusting_period,
    ) {
        Ok(p) => p,
        Err(e) => return Err(e),
    };
    let proofs = match collect_membership_proofs(key_paths, trusted.height, responses) {
        Ok(p) => p,
        Err(e) => return Err(e),
    };
    let commitment_root = copy_bytes(&consensus_state.root);
    Ok((client_state, consensus_state, ProofRequest::Membership { commitment_root, proofs }))
}

/// Whether every answer fits its key path, as `collect_membership_proofs` asks.
pub open spec fn collect_membership_proofs_ok(key_paths: Seq<String>, trusted_height: u64, responses: Seq<QueryResponse>) -> bool {
    key_paths.len() > 0 && trusted_height != 0 && responses.len() == key_paths.len()
        && crate::membership::all_responses_ok(key_paths, (trusted_height - 1) as u64, responses, key_paths.len() as int)
}

/// Bytes as hexadecimal text after a `0x` prefix.
pub fn prefixed_hex(b: &[u8]) -> (r: String)
    ensures
        r@ == seq!['0', 'x'] + hex_encoding(b@),
{
    let digits = encode_hex(b);
    let mut r = String::from_str("0x");
    r.append(digits.as_str());
    proof {
        reveal_strlit("0x");
        assert(r@ =~= seq!['0', 'x'] + hex_encoding(b@));
    }
    r
}

/// Bytes as hexadecimal text.
pub fn plain_hex(b: &[u8]) -> (r: String)
    ensures
        r@ == hex_encoding(b@),
{
    encode_hex(b)
}

} // verus!
