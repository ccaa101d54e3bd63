//! The genesis document of the light-client contract.
use crate::abi::{abi_client_state, abi_consensus_state};
use crate::fixtures::{client_state_error, trusted_states};
use crate::error::RelayError;
use crate::height::{resolved_trusting_period, revision_of, TrustThreshold};
use crate::hex_text::{encode_hex, hex_encoding};
use crate::light_block::{copy_string, LightBlock, U32_LIMIT};
use vstd::prelude::*;

verus! {

/// The identifiers of the verifying keys of the three proof programs.
#[derive(Debug)]
pub struct VerifyingKeys {
    pub update_client: String,
    pub membership: String,
    pub uc_and_membership: String,
}

/// The genesis data of the contract: the client and consensus state that it
/// starts out trusting, encoded, and the verifying keys it accepts.
#[derive(Debug)]
pub struct SP1ICS07TendermintGenesis {
    /// The encoded trusted client state.
    pub trusted_client_state: Vec<u8>,
    /// The encoded trusted consensus state.
    pub trusted_consensus_state: Vec<u8>,
    /// The key of the update program.
    pub update_client_vkey: String,
    /// The key of the membership program.
    pub membership_vkey: String,
    /// The key of the update-and-membership program.
    pub uc_and_membership_vkey: String,
}

/// Why no genesis can be built for `block` with these trust parameters, if
/// so: the client state must be derivable and the digests 32 bytes long.
pub open spec fn genesis_error(
    block: &LightBlock,
    trusting_period: Option<u32>,
    trust_level: TrustThreshold,
    unbonding_period: u32,
) -> Option<RelayError> {
    if client_state_error(block, trust_level, unbonding_period, trusting_period) is Some {
        client_state_error(block, trust_level, unbonding_period, trusting_period)
    } else if block.app_hash@.len() != 32 || block.next_validators_hash@.len() != 32 {
        Some(RelayError::MalformedDigest)
    } else {
        None
    }
}

impl SP1ICS07TendermintGenesis {
    /// Builds the genesis for `trusted_light_block` from the values that the
    /// environment and the source chain supplied. Without an explicit trusting
    /// period, two thirds of the unbonding period apply.
    pub fn from_env(
        trusted_light_block: &LightBlock,
        trusting_period: Option<u32>,
        trust_level: TrustThreshold,
        unbonding_period: u32,
        keys: &VerifyingKeys,
    ) -> (r: Result<Self, RelayError>)
        ensures
            r is Ok <==> genesis_error(trusted_light_block, trusting_period, trust_level, unbonding_period) is None,
            r matches Err(e) ==> genesis_error(trusted_light_block, trusting_period, trust_level, unbonding_period)
                == Some(e),
            !trust_level.wf() ==> r is Err,
            trusted_light_block.height == 0 ==> r is Err,
            r matches Ok(g) ==> {
                &&& g.trusted_client_state@ == abi_client_state(
                    trusted_light_block.chain_id@,
                    trust_level.numerator as u8,
                    trust_level.denominator as u8,
                    revision_of(trusted_light_block.chain_id@) as u32,
                    trusted_light_block.height as u32,
                    resolved_trusting_period(unbonding_period, trusting_period) as u32,
                    unbonding_period,
                    false,
                )
                &&& g.trusted_consensus_state@ == abi_consensus_state(
                    trusted_light_block.time,
                    trusted_light_block.app_hash@,
                    trusted_light_block.next_validators_hash@,
                )
                &&& g.update_client_vkey@ == keys.update_client@
                &&& g.membership_vkey@ == keys.membership@
                &&& g.uc_and_membership_vkey@ == keys.uc_and_membership@
            },
    {
        let (client_state, consensus_state) = match trusted_states(
            trusted_light_block,
            trust_level,
            unbonding_period,
            trusting_period,
        ) {
            Ok(p) => p,
            Err(e) => return Err(e),
        };
        let trusted_consensus_state = match consensus_state.abi_encode() {
            Ok(b) => b,
            Err(e) => return Err(e),
        };
        Ok(
            SP1ICS07TendermintGenesis {
                trusted_client_state: client_state.abi_encode(),
                trusted_consensus_state,
                update_client_vkey: copy_string(&keys.update_client),
                membership_vkey: copy_string(&keys.membership),
                uc_and_membership_vkey: copy_string(&keys.uc_and_membership),
            },
        )
    }

    /// The encoded trusted client state as hexadecimal text.
    pub fn trusted_client_state_hex(&self) -> (r: String)
        ensures
            r@ == hex_encoding(self.trusted_client_state@),
    {
        encode_hex(self.trusted_client_state.as_slice())
    }

    /// The encoded trusted consensus state as hexadecimal text.
    pub fn trusted_consensus_state_hex(&self) -> (r: String)
        ensures
            r@ == hex_encoding(self.trusted_consensus_state@),
    {
        encode_hex(self.trusted_consensus_state.as_slice())
    }
}

/// The unbonding period in whole seconds as the contract holds it, from the
/// seconds that the chain's staking parameters give.
pub fn unbonding_period_from_seconds(seconds: i64) -> (r: Result<u32, RelayError>)
    ensures
        r is Ok <==> 0 <= seconds <= U32_LIMIT,
        r matches Ok(p) ==> p == seconds,
        r matches Err(e) ==> e == RelayError::NumericOverflow,
{
    if seconds < 0 || seconds > U32_LIMIT as i64 {
        Err(RelayError::NumericOverflow)
    } else {
        Ok(seconds as u32)
    }
}

} // verus!
