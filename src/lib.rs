//! Light-client state derivation and proof orchestration for a Tendermint
//! light client that lives in a counterparty chain's contract.

mod abi;
mod error;
mod fixtures;
mod genesis;
mod height;
mod hex_text;
mod light_block;
mod membership;
mod operator;
mod orchestrator;

pub use abi::{
    abi_client_state, abi_consensus_state, abi_kv_pairs, abi_membership_output,
    abi_uc_and_membership_output, abi_update_output, ClientStateView, ConsensusStateView, KvPair,
};
pub use error::RelayError;
pub use fixtures::{membership_request, plain_hex, prefixed_hex, trusted_states, update_client_request};
pub use genesis::{unbonding_period_from_seconds, SP1ICS07TendermintGenesis, VerifyingKeys};
pub use height::{resolve_trusting_period, ChainIdentity, Height, TrustThreshold};
pub use hex_text::{hex_decoding, hex_encoding, is_hex_text};
pub use light_block::{ClientState, ConsensusState, Header, LightBlock, LightBlockWrapper};
pub use membership::{
    collect_membership_proofs, membership_proof, query_height, MembershipProof, QueryResponse,
};
pub use operator::{build_update_request, check_trusted_state, failure_event, next_step, Event, Mode, Outcome, Phase, Step};
pub use orchestrator::{
    check_membership_output, check_output, check_update_output, consensus_states_equal,
    membership_output_kv_pairs,
    update_output_new_consensus_state, validate_proof, Env, ProofBundle, ProofRequest,
    Submission,
};
