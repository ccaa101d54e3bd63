use crate::error::RelayError;
use crate::height::{revision_of, ChainIdentity, Height, TrustThreshold};
use vstd::prelude::*;

verus! {

/// The largest value that the contract's 32-bit fields hold.
pub const U32_LIMIT: u64 = 4294967295;

/// The largest value that the contract's 8-bit fields hold.
pub const U8_LIMIT: u64 = 255;

/// What the relay reads of a block observed on the source chain: its header
/// fields, and the signed header and validator sets in their wire encoding.
#[derive(Debug)]
pub struct LightBlock {
    /// The chain identifier written in the header.
    pub chain_id: String,
    /// The block height.
    pub height: u64,
    /// The block time, in nanoseconds since the Unix epoch.
    pub time: u64,
    /// The application state hash committed by the header.
    pub app_hash: Vec<u8>,
    /// The hash of the validator set that signs the next block.
    pub next_validators_hash: Vec<u8>,
    /// The signed header: header and commit.
    pub signed_header: Vec<u8>,
    /// The validator set at this height.
    pub validators: Vec<u8>,
    /// The validator set for the next height.
    pub next_validators: Vec<u8>,
}

/// The contract's view of the light client: what it trusts and how.
#[derive(Debug)]
pub struct ClientState {
    pub chain_id: String,
    pub trust_level: TrustThreshold,
    pub latest_height: Height,
    pub is_frozen: bool,
    /// Seconds.
    pub trusting_period: u32,
    /// Seconds.
    pub unbonding_period: u32,
}

impl ClientState {
    /// The invariants of a client state: a valid threshold, a trusting period
    /// within the unbonding period, and heights that fit the contract's fields.
    pub open spec fn wf(&self) -> bool {
        &&& self.trust_level.wf()
        &&& self.trusting_period <= self.unbonding_period
        &&& self.latest_height.revision_number <= U32_LIMIT
        &&& self.latest_height.revision_height <= U32_LIMIT
        &&& self.trust_level.numerator <= U8_LIMIT
        &&& self.trust_level.denominator <= U8_LIMIT
    }
}

/// The state that a trusted header commits to.
#[derive(Debug)]
pub struct ConsensusState {
    /// Nanoseconds since the Unix epoch.
    pub timestamp: u64,
    /// The commitment root: the application hash of the header.
    pub root: Vec<u8>,
    pub next_validators_hash: Vec<u8>,
}

/// The witness of an update: the target block's signed header and validators,
/// and the trusted block's height and next validator set.
#[derive(Debug)]
pub struct Header {
    pub signed_header: Vec<u8>,
    pub validator_set: Vec<u8>,
    pub trusted_height: Height,
    pub trusted_next_validator_set: Vec<u8>,
}

/// Copies a byte string.
pub fn copy_bytes(v: &Vec<u8>) -> (r: Vec<u8>)
    ensures
        r@ == v@,
{
    let r = v.clone();
    assert(r@ =~= v@);
    r
}

/// Copies a string.
pub fn copy_string(s: &String) -> (r: String)
    ensures
        r@ == s@,
{
    s.as_str().to_owned()
}

/// A block together with the derivations that the relay needs from it.
#[derive(Debug)]
pub struct LightBlockWrapper(pub LightBlock);

impl LightBlockWrapper {
    pub fn new(light_block: LightBlock) -> (r: Self)
        ensures
            r.0 == light_block,
    {
        LightBlockWrapper(light_block)
    }

    /// The wrapped block.
    pub fn as_light_block(&self) -> (r: &LightBlock)
        ensures
            *r == self.0,
    {
        &self.0
    }

    /// The chain identity named in the block's header.
    pub fn chain_id(&self) -> (r: Result<ChainIdentity, RelayError>)
        ensures
            r is Err <==> self.0.chain_id@.len() == 0,
            r matches Err(e) ==> e == RelayError::MalformedChainId,
            r matches Ok(c) ==> c.wf() && c.id@ == self.0.chain_id@,
    {
        ChainIdentity::parse(self.0.chain_id.as_str())
    }

    /// A fresh, unfrozen client state that trusts this block. Heights must
    /// fit the contract's 32-bit fields and the threshold its 8-bit ones.
    pub fn to_sol_client_state(
        &self,
        trust_level: TrustThreshold,
        unbonding_period: u32,
        trusting_period: u32,
    ) -> (r: Result<ClientState, RelayError>)
        ensures
            r is Ok <==> (self.0.chain_id@.len() > 0 && trust_level.wf() && trusting_period
                <= unbonding_period && revision_of(self.0.chain_id@) <= U32_LIMIT && self.0.height
                <= U32_LIMIT && trust_level.denominator <= U8_LIMIT),
            r matches Err(e) ==> (e == RelayError::InvalidTrustParameters <==> !(trust_level.wf()
                && trusting_period <= unbonding_period)),
            r matches Err(e) ==> (e == RelayError::IdentifierParseError <==> (trust_level.wf()
                && trusting_period <= unbonding_period && self.0.chain_id@.len() == 0)),
            r matches Err(e) ==> (e == RelayError::NumericOverflow <==> (self.0.chain_id@.len() > 0
                && trust_level.wf() && trusting_period <= unbonding_period)),
            r matches Ok(c) ==> {
                &&& c.wf()
                &&& c.chain_id@ == self.0.chain_id@
                &&& c.trust_level == trust_level
                &&& c.latest_height == Height {
                    revision_number: revision_of(self.0.chain_id@),
                    revision_height: self.0.height,
                }
                &&& !c.is_frozen
                &&& c.trusting_period == trusting_period
                &&& c.unbonding_period == unbonding_period
            },
    {
        if !(0 < trust_level.numerator && trust_level.numerator <= trust_level.denominator
            && trusting_period <= unbonding_period) {
            return Err(RelayError::InvalidTrustParameters);
        }
        let chain_id = match self.chain_id() {
            Ok(c) => c,
            Err(_) => return Err(RelayError::IdentifierParseError),
        };
        let revision_number = chain_id.revision_number();
        if revision_number > U32_LIMIT || self.0.height > U32_LIMIT || trust_level.denominator
            > U8_LIMIT {
            return Err(RelayError::NumericOverflow);
        }
        Ok(ClientState {
            chain_id: chain_id.id,
            trust_level,
            latest_height: Height::new(revision_number, self.0.height),
            is_frozen: false,
            trusting_period,
            unbonding_period,
        })
    }

    /// The consensus state that this block commits to.
    pub fn to_consensus_state(&self) -> (r: ConsensusState)
        ensures
            r.timestamp == self.0.time,
            r.root@ == self.0.app_hash@,
            r.next_validators_hash@ == self.0.next_validators_hash@,
    {
        ConsensusState {
            timestamp: self.0.time,
            root: copy_bytes(&self.0.app_hash),
            next_validators_hash: copy_bytes(&self.0.next_validators_hash),
        }
    }

    /// The update header that takes a client from `trusted_light_block` to this
    /// block. A trusted block at height zero cannot anchor an update.
    pub fn into_header(self, trusted_light_block: &LightBlock) -> (r: Result<Header, RelayError>)
        ensures
            r is Ok <==> (trusted_light_block.chain_id@.len() > 0 && trusted_light_block.height
                != 0),
            r matches Err(e) ==> (e == RelayError::IdentifierParseError
                <==> trusted_light_block.chain_id@.len() == 0),
            r matches Err(e) ==> (e == RelayError::ZeroTrustedHeight <==> (
            trusted_light_block.chain_id@.len() > 0 && trusted_light_block.height == 0)),
            r matches Ok(h) ==> {
                &&& h.signed_header == self.0.signed_header
                &&& h.validator_set == self.0.validators
                &&& h.trusted_height == Height {
                    revision_number: revision_of(trusted_light_block.chain_id@),
                    revision_height: trusted_light_block.height,
                }
                &&& h.trusted_next_validator_set@ == trusted_light_block.next_validators@
            },
    {
        let trusted_chain_id = match ChainIdentity::parse(trusted_light_block.chain_id.as_str()) {
            Ok(c) => c,
            Err(_) => return Err(RelayError::IdentifierParseError),
        };
        if trusted_light_block.height == 0 {
            return Err(RelayError::ZeroTrustedHeight);
        }
        let block = self.0;
        Ok(Header {
            signed_header: block.signed_header,
            validator_set: block.validators,
            trusted_height: Height::new(
                trusted_chain_id.revision_number(),
                trusted_light_block.height,
            ),
            trusted_next_validator_set: copy_bytes(&trusted_light_block.next_validators),
        })
    }
}

} // verus!
