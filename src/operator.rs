//! The decisions of the relay loop: building an update request from what the
//! chains report, and which step follows which.
use crate::error::RelayError;
use crate::height::{revision_of, Height};
use crate::light_block::{copy_bytes, copy_string, ClientState, LightBlock, LightBlockWrapper};
use crate::orchestrator::{Env, ProofRequest};
use vstd::prelude::*;

verus! {

/// The height of a block, with the revision number that its chain id embeds.
pub open spec fn block_height(b: &LightBlock) -> Height {
    Height { revision_number: revision_of(b.chain_id@), revision_height: b.height }
}

/// Why no update request can be built, if so.
pub open spec fn update_request_error(
    client_state: &ClientState,
    trusted: &LightBlock,
    target: &LightBlock,
) -> Option<RelayError> {
    if client_state.latest_height.revision_height == 0 {
        Some(RelayError::ZeroTrustedHeight)
    } else if client_state.is_frozen {
        Some(RelayError::ClientFrozen)
    } else if trusted.chain_id@.len() == 0 || target.chain_id@.len() == 0 {
        Some(RelayError::IdentifierParseError)
    } else if block_height(trusted) != client_state.latest_height {
        Some(RelayError::HeightMismatch)
    } else if !client_state.latest_height.spec_lt(block_height(target)) {
        Some(RelayError::HeightNotIncreasing)
    } else {
        None
    }
}

/// Builds the request to prove that `target` updates the client whose state
/// the contract holds, from the block `trusted` at the client's height.
/// `now` is the time the request is built at.
pub fn build_update_request(
    client_state: &ClientState,
    trusted: &LightBlock,
    target: LightBlock,
    now: u64,
) -> (r: Result<ProofRequest, RelayError>)
    ensures
        r is Ok <==> update_request_error(client_state, trusted, &target) is None,
        r matches Err(e) ==> update_request_error(client_state, trusted, &target) == Some(e),
        !client_state.latest_height.spec_lt(block_height(&target)) ==> r is Err,
        r matches Ok(req) ==> match req {
            ProofRequest::UpdateClient { trusted_consensus_state, header, env } => {
                &&& trusted_consensus_state.timestamp == trusted.time
                &&& trusted_consensus_state.root@ == trusted.app_hash@
                &&& trusted_consensus_state.next_validators_hash@ == trusted.next_validators_hash@
                &&& header.signed_header == target.signed_header
                &&& header.validator_set == target.validators
                &&& header.trusted_height == client_state.latest_height
                &&& header.trusted_next_validator_set@ == trusted.next_validators@
                &&& env.chain_id@ == target.chain_id@
                &&& env.trust_threshold == client_state.trust_level
                &&& env.trusting_period == client_state.trusting_period
                &&& env.now == now
            },
            _ => false,
        },
{
    if client_state.latest_height.revision_height == 0 {
        return Err(RelayError::ZeroTrustedHeight);
    }
    if client_state.is_frozen {
        return Err(RelayError::ClientFrozen);
    }
    let target_block = LightBlockWrapper::new(target);
    let target_id = match target_block.chain_id() {
        Ok(c) => c,
        Err(_) => return Err(RelayError::IdentifierParseError),
    };
    let trusted_block = LightBlockWrapper::new(LightBlock {
        chain_id: copy_string(&trusted.chain_id),
        height: trusted.height,
        time: trusted.time,
        app_hash: copy_bytes(&trusted.app_hash),
        next_validators_hash: copy_bytes(&trusted.next_validators_hash),
        signed_header: copy_bytes(&trusted.signed_header),
        validators: copy_bytes(&trusted.validators),
        next_validators: copy_bytes(&trusted.next_validators),
    });
    let trusted_id = match trusted_block.chain_id() {
        Ok(c) => c,
        Err(_) => return Err(RelayError::IdentifierParseError),
    };
    let trusted_height = Height::new(trusted_id.revision_number(), trusted.height);
    if trusted_height != client_state.latest_height {
        return Err(RelayError::HeightMismatch);
    }
    let target_height = Height::new(target_id.revision_number(), target_block.0.height);
    if !client_state.latest_height.lt(&target_height) {
        return Err(RelayError::HeightNotIncreasing);
    }
    let trusted_consensus_state = trusted_block.to_consensus_state();
    let env = Env {
        chain_id: target_id.id,
        trust_threshold: client_state.trust_level,
        trusting_period: client_state.trusting_period,
        now,
    };
    let header = match target_block.into_header(trusted) {
        Ok(h) => h,
        Err(e) => return Err(e),
    };
    Ok(ProofRequest::UpdateClient { trusted_consensus_state, header, env })
}

/// Whether the loop stops after its first successful submission.
#[derive(Debug, Clone, Copy, PartialEq, Eq, Structural)]
pub enum Mode {
    SingleShot,
    Continuous,
}

/// The steps of one iteration of the relay loop.
#[derive(Debug, Clone, Copy, PartialEq, Eq, Structural)]
pub enum Phase {
    /// Read the client state that the contract holds.
    ReadTrustedState,
    /// Fetch the trusted and the latest block from the source chain.
    FetchBlocks,
    /// Build the update request.
    BuildRequest,
    /// Have the proof generated and checked.
    Prove,
    /// Send the proof and wait for its inclusion.
    Submit,
    /// Wait before the next iteration.
    Idle,
}

/// How a step ended.
#[derive(Debug, Clone, Copy, PartialEq, Eq, Structural)]
pub enum Event {
    /// The step succeeded.
    Done,
    /// A network or chain failure that a fresh iteration may not meet again.
    Transient,
    /// A failure that no retry can mend.
    Fatal(RelayError),
}

/// How the loop ended.
#[derive(Debug, Clone, Copy, PartialEq, Eq, Structural)]
pub enum Outcome {
    Success,
    Failure,
}

/// What the loop does next.
#[derive(Debug, Clone, Copy, PartialEq, Eq, Structural)]
pub enum Step {
    /// Carry out this phase.
    Enter(Phase),
    /// Return with this outcome.
    Stop(Outcome),
}

/// The phase that follows a phase that succeeded, within one iteration.
pub open spec fn following(phase: Phase) -> Phase {
    match phase {
        Phase::ReadTrustedState => Phase::FetchBlocks,
        Phase::FetchBlocks => Phase::BuildRequest,
        Phase::BuildRequest => Phase::Prove,
        Phase::Prove => Phase::Submit,
        Phase::Submit => Phase::Idle,
        Phase::Idle => Phase::ReadTrustedState,
    }
}

/// The step after `phase` ended with `event`: a fatal failure stops the
/// loop; a transient one ends the iteration, which a continuous loop retries
/// after its pause and a single-shot loop reports; a submission ends a
/// single-shot loop without a pause.
pub open spec fn spec_next_step(mode: Mode, phase: Phase, event: Event) -> Step {
    match event {
        Event::Fatal(_) => Step::Stop(Outcome::Failure),
        Event::Transient => if mode == Mode::Continuous {
            Step::Enter(Phase::Idle)
        } else {
            Step::Stop(Outcome::Failure)
        },
        Event::Done => if phase == Phase::Submit && mode == Mode::SingleShot {
            Step::Stop(Outcome::Success)
        } else {
            Step::Enter(following(phase))
        },
    }
}

/// Checks the client state that the contract holds before an iteration uses
/// it: a zero height means that no client was ever initialized, and a frozen
/// client takes no update.
pub fn check_trusted_state(client_state: &ClientState) -> (r: Result<(), RelayError>)
    ensures
        r is Ok <==> client_state.latest_height.revision_height != 0 && !client_state.is_frozen,
        r matches Err(e) ==> (e == RelayError::ZeroTrustedHeight
            <==> client_state.latest_height.revision_height == 0),
        r matches Err(e) ==> (e == RelayError::ClientFrozen <==> (
        client_state.latest_height.revision_height != 0 && client_state.is_frozen)),
{
    if client_state.latest_height.revision_height == 0 {
        Err(RelayError::ZeroTrustedHeight)
    } else if client_state.is_frozen {
        Err(RelayError::ClientFrozen)
    } else {
        Ok(())
    }
}

/// How an iteration that failed with `e` ends: a target that is not yet above
/// the trusted height only means that the chain has not moved on, which the
/// next iteration reads afresh; every other error of the relay is fatal.
pub fn failure_event(e: RelayError) -> (r: Event)
    ensures
        e == RelayError::HeightNotIncreasing ==> r == Event::Transient,
        e != RelayError::HeightNotIncreasing ==> r == Event::Fatal(e),
{
    match e {
        RelayError::HeightNotIncreasing => Event::Transient,
        _ => Event::Fatal(e),
    }
}

/// The step after `phase` ended with `event`. The submission is entered
/// only from a proof that succeeded, so once per iteration.
pub fn next_step(mode: Mode, phase: Phase, event: Event) -> (r: Step)
    ensures
        r == spec_next_step(mode, phase, event),
        r == Step::Enter(Phase::Submit) <==> (phase == Phase::Prove && event == Event::Done),
        r == Step::Enter(Phase::ReadTrustedState) <==> (phase == Phase::Idle && event == Event::Done),
        mode == Mode::SingleShot && phase == Phase::Submit && event == Event::Done ==> r
            == Step::Stop(Outcome::Success),
        mode == Mode::SingleShot ==> r != Step::Enter(Phase::Idle),
{
    match event {
        Event::Fatal(_) => Step::Stop(Outcome::Failure),
        Event::Transient => match mode {
            Mode::Continuous => Step::Enter(Phase::Idle),
            Mode::SingleShot => Step::Stop(Outcome::Failure),
        },
        Event::Done => match phase {
            Phase::ReadTrustedState => Step::Enter(Phase::FetchBlocks),
            Phase::FetchBlocks => Step::Enter(Phase::BuildRequest),
            Phase::BuildRequest => Step::Enter(Phase::Prove),
            Phase::Prove => Step::Enter(Phase::Submit),
            Phase::Submit => match mode {
                Mode::SingleShot => Step::Stop(Outcome::Success),
                Mode::Continuous => Step::Enter(Phase::Idle),
            },
            Phase::Idle => Step::Enter(Phase::ReadTrustedState),
        },
    }
}

} // verus!
