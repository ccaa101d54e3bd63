use alloy_sol_types::sol_data::{Array, Bool, Bytes, FixedBytes, String as SolString, Uint};
use alloy_sol_types::{SolType, Word};
use sp1_ics07_tendermint_operator::{
    build_update_request, check_trusted_state, failure_event, membership_output_kv_pairs,
    update_output_new_consensus_state, collect_membership_proofs, membership_proof, membership_request,
    next_step, plain_hex, prefixed_hex, query_height, resolve_trusting_period, trusted_states,
    unbonding_period_from_seconds, update_client_request, validate_proof, ChainIdentity,
    ClientState, ConsensusState, Event, Height, LightBlock, LightBlockWrapper, Mode, Outcome,
    Phase, ProofBundle, ProofRequest, QueryResponse, RelayError, SP1ICS07TendermintGenesis, Step,
    TrustThreshold, VerifyingKeys,
};

fn block(chain_id: &str, height: u64, root: u8) -> LightBlock {
    LightBlock {
        chain_id: chain_id.to_string(),
        height,
        time: 1_700_000_000_000_000_000 + height,
        app_hash: vec![root; 32],
        next_validators_hash: vec![0x11; 32],
        signed_header: vec![0x20, height as u8],
        validators: vec![0x30, height as u8],
        next_validators: vec![0x40, height as u8],
    }
}

type SolCs = (Uint<64>, FixedBytes<32>, FixedBytes<32>);
type SolClientState = (SolString, (Uint<8>, Uint<8>), (Uint<32>, Uint<32>), Uint<32>, Uint<32>, Bool);
type SolEnv = (SolString, (Uint<8>, Uint<8>), Uint<32>, Uint<64>);
type SolUpdateOutput = (SolCs, SolCs, SolEnv, (Uint<32>, Uint<32>), (Uint<32>, Uint<32>));
type SolKvPairs = Array<(SolString, Bytes)>;

fn consensus(root: u8) -> ConsensusState {
    ConsensusState { timestamp: 7, root: vec![root; 32], next_validators_hash: vec![0x11; 32] }
}

fn sol_cs(c: &ConsensusState) -> (u64, Word, Word) {
    (c.timestamp, Word::from_slice(&c.root), Word::from_slice(&c.next_validators_hash))
}

fn update_value(
    trusted: &ConsensusState,
    new: &ConsensusState,
) -> ((u64, Word, Word), (u64, Word, Word), (String, (u8, u8), u32, u64), (u32, u32), (u32, u32)) {
    (sol_cs(trusted), sol_cs(new), ("test-1".to_string(), (1, 3), 10, 1), (1, 100), (1, 150))
}

fn update_output(trusted: &ConsensusState, new: &ConsensusState) -> Vec<u8> {
    SolUpdateOutput::abi_encode(&update_value(trusted, new))
}

fn kv_pairs() -> Vec<(String, Vec<u8>)> {
    vec![("a/b".to_string(), vec![1, 2]), ("c".to_string(), vec![])]
}

fn membership_output(root: &[u8]) -> Vec<u8> {
    <(FixedBytes<32>, SolKvPairs)>::abi_encode(&(Word::from_slice(root), kv_pairs()))
}

fn uc_and_membership_output(trusted: &ConsensusState, new: &ConsensusState) -> Vec<u8> {
    <(SolUpdateOutput, SolKvPairs)>::abi_encode(&(update_value(trusted, new), kv_pairs()))
}

fn keys() -> VerifyingKeys {
    VerifyingKeys {
        update_client: "0x01".to_string(),
        membership: "0x02".to_string(),
        uc_and_membership: "0x03".to_string(),
    }
}

fn response(key: &str, value: &[u8], nodes: usize, height: u64) -> QueryResponse {
    QueryResponse {
        key: key.as_bytes().to_vec(),
        value: value.to_vec(),
        proof: Some((0..nodes).map(|i| vec![i as u8, 0xee]).collect()),
        height,
    }
}

fn on_chain_state(revision_number: u64, revision_height: u64) -> ClientState {
    ClientState {
        chain_id: "test-1".to_string(),
        trust_level: TrustThreshold::one_third(),
        latest_height: Height::new(revision_number, revision_height),
        is_frozen: false,
        trusting_period: 1_209_600,
        unbonding_period: 1_814_400,
    }
}

#[test]
fn chain_id_with_revision_suffix() {
    let c = ChainIdentity::parse("cosmoshub-4").unwrap();
    assert_eq!(c.revision_number(), 4);
    assert_eq!(c.as_str(), "cosmoshub-4");
    assert_eq!(ChainIdentity::parse("a-b-12").unwrap().revision_number(), 12);
}

#[test]
fn chain_id_without_numeric_suffix_is_revision_zero() {
    assert_eq!(ChainIdentity::parse("mychain").unwrap().revision_number(), 0);
    assert_eq!(ChainIdentity::parse("chain-x1").unwrap().revision_number(), 0);
    assert_eq!(ChainIdentity::parse("chain-").unwrap().revision_number(), 0);
    assert_eq!(ChainIdentity::parse("c-99999999999999999999").unwrap().revision_number(), 0);
    assert_eq!(
        ChainIdentity::parse("c-18446744073709551615").unwrap().revision_number(),
        u64::MAX
    );
}

#[test]
fn chain_id_with_empty_name_keeps_its_revision() {
    assert_eq!(ChainIdentity::parse("-5").unwrap().revision_number(), 5);
    assert_eq!(ChainIdentity::parse("-").unwrap().revision_number(), 0);
}

#[test]
fn invalid_threshold_is_reported_before_the_chain_id() {
    let b = block("", 100, 0xaa);
    let r = SP1ICS07TendermintGenesis::from_env(
        &b,
        None,
        TrustThreshold { numerator: 0, denominator: 3 },
        30,
        &keys(),
    );
    assert_eq!(r.unwrap_err(), RelayError::InvalidTrustParameters);
    let r = SP1ICS07TendermintGenesis::from_env(&b, None, TrustThreshold::one_third(), 30, &keys());
    assert_eq!(r.unwrap_err(), RelayError::IdentifierParseError);
}

#[test]
fn empty_chain_id_is_malformed() {
    assert_eq!(ChainIdentity::parse(""), Err(RelayError::MalformedChainId));
}

#[test]
fn heights_order_by_revision_first() {
    assert!(Height::new(1, 100).lt(&Height::new(1, 150)));
    assert!(Height::new(1, 900).lt(&Height::new(2, 1)));
    assert!(!Height::new(1, 100).lt(&Height::new(1, 100)));
    assert!(!Height::new(2, 1).lt(&Height::new(1, 900)));
}

#[test]
fn trusting_period_defaults_to_two_thirds() {
    assert_eq!(resolve_trusting_period(1_814_400, None), Ok(1_209_600));
    assert_eq!(resolve_trusting_period(10, None), Ok(6));
    assert_eq!(resolve_trusting_period(u32::MAX, None), Ok(2_863_311_530));
    assert_eq!(resolve_trusting_period(0, None), Ok(0));
}

#[test]
fn explicit_trusting_period_above_unbonding_is_refused() {
    assert_eq!(resolve_trusting_period(100, Some(101)), Err(RelayError::InvalidTrustParameters));
    assert_eq!(resolve_trusting_period(100, Some(100)), Ok(100));
    assert_eq!(resolve_trusting_period(100, Some(5)), Ok(5));
}

#[test]
fn trust_threshold_must_be_a_fraction_up_to_one() {
    assert_eq!(TrustThreshold::new(0, 3), Err(RelayError::InvalidTrustParameters));
    assert_eq!(TrustThreshold::new(4, 3), Err(RelayError::InvalidTrustParameters));
    assert_eq!(TrustThreshold::new(3, 3), Ok(TrustThreshold { numerator: 3, denominator: 3 }));
}

#[test]
fn client_state_from_block() {
    let w = LightBlockWrapper::new(block("cosmoshub-4", 100, 0xaa));
    let c = w.to_sol_client_state(TrustThreshold::one_third(), 300, 200).unwrap();
    assert_eq!(c.chain_id, "cosmoshub-4");
    assert_eq!(c.latest_height, Height::new(4, 100));
    assert!(!c.is_frozen);
    assert_eq!(c.trusting_period, 200);
    assert_eq!(c.unbonding_period, 300);
    assert_eq!(c.trust_level, TrustThreshold { numerator: 1, denominator: 3 });
}

#[test]
fn client_state_errors() {
    let t = TrustThreshold::one_third();
    let w = LightBlockWrapper::new(block("", 100, 0xaa));
    assert_eq!(w.to_sol_client_state(t, 300, 200).unwrap_err(), RelayError::IdentifierParseError);
    let w = LightBlockWrapper::new(block("c-1", 1 << 32, 0xaa));
    assert_eq!(w.to_sol_client_state(t, 300, 200).unwrap_err(), RelayError::NumericOverflow);
    let w = LightBlockWrapper::new(block("c-4294967296", 5, 0xaa));
    assert_eq!(w.to_sol_client_state(t, 300, 200).unwrap_err(), RelayError::NumericOverflow);
    let w = LightBlockWrapper::new(block("c-1", 5, 0xaa));
    assert_eq!(
        w.to_sol_client_state(t, 300, 301).unwrap_err(),
        RelayError::InvalidTrustParameters
    );
    assert_eq!(
        w.to_sol_client_state(TrustThreshold { numerator: 0, denominator: 1 }, 300, 200)
            .unwrap_err(),
        RelayError::InvalidTrustParameters
    );
}

#[test]
fn consensus_state_from_block() {
    let b = block("c-1", 100, 0xaa);
    let w = LightBlockWrapper::new(b);
    let s = w.to_consensus_state();
    assert_eq!(s.timestamp, 1_700_000_000_000_000_100);
    assert_eq!(s.root, vec![0xaa; 32]);
    assert_eq!(s.next_validators_hash, vec![0x11; 32]);
    assert_eq!(w.as_light_block().height, 100);
    assert_eq!(w.chain_id().unwrap().revision_number(), 1);
}

#[test]
fn header_from_trusted_and_target_block() {
    let trusted = block("test-1", 100, 0xaa);
    let target = LightBlockWrapper::new(block("test-1", 150, 0xbb));
    let h = target.into_header(&trusted).unwrap();
    assert_eq!(h.trusted_height, Height::new(1, 100));
    assert_eq!(h.trusted_next_validator_set, vec![0x40, 100]);
    assert_eq!(h.signed_header, vec![0x20, 150]);
    assert_eq!(h.validator_set, vec![0x30, 150]);
}

#[test]
fn header_refuses_zero_trusted_height() {
    let trusted = block("test-1", 0, 0xaa);
    let target = LightBlockWrapper::new(block("test-1", 150, 0xbb));
    assert_eq!(target.into_header(&trusted).unwrap_err(), RelayError::ZeroTrustedHeight);
}

#[test]
fn empty_value_is_a_non_membership_claim() {
    let r = response("clients/07-tendermint-0/clientState", &[], 2, 99);
    let p = membership_proof(&"clients/07-tendermint-0/clientState".to_string(), 99, &r).unwrap();
    assert!(p.is_non_membership());
    assert_eq!(p.proof.len(), 2);
    assert_eq!(p.value, Vec::<u8>::new());
}

#[test]
fn present_value_is_a_membership_claim() {
    let r = response("k", &[5, 6], 1, 99);
    let p = membership_proof(&"k".to_string(), 99, &r).unwrap();
    assert!(!p.is_non_membership());
    assert_eq!(p.value, vec![5, 6]);
    assert_eq!(p.key_path, "k");
    assert_eq!(p.proof, vec![vec![0, 0xee]]);
}

#[test]
fn membership_answer_errors() {
    let k = "k".to_string();
    assert_eq!(
        membership_proof(&k, 99, &response("k", &[1], 1, 98)).unwrap_err(),
        RelayError::HeightMismatch
    );
    assert_eq!(
        membership_proof(&k, 99, &response("j", &[1], 1, 99)).unwrap_err(),
        RelayError::KeyMismatch
    );
    assert_eq!(
        membership_proof(&k, 99, &response("k", &[], 0, 99)).unwrap_err(),
        RelayError::EmptyProofError
    );
    let mut r = response("k", &[1], 1, 99);
    r.proof = None;
    assert_eq!(membership_proof(&k, 99, &r).unwrap_err(), RelayError::EmptyProofError);
}

#[test]
fn query_height_is_the_block_before() {
    assert_eq!(query_height(100), Ok(99));
    assert_eq!(query_height(0), Err(RelayError::ZeroTrustedHeight));
}

#[test]
fn membership_proofs_keep_key_order() {
    let keys = vec!["k1".to_string(), "k2".to_string(), "k3".to_string()];
    let responses =
        vec![response("k1", &[1], 1, 99), response("k2", &[], 2, 99), response("k3", &[3], 3, 99)];
    let proofs = collect_membership_proofs(&keys, 100, &responses).unwrap();
    let got: Vec<&str> = proofs.iter().map(|p| p.key_path.as_str()).collect();
    assert_eq!(got, vec!["k1", "k2", "k3"]);
    assert_eq!(proofs[1].proof.len(), 2);
    assert!(proofs[1].is_non_membership());
}

#[test]
fn membership_collection_errors() {
    let keys = vec!["k1".to_string(), "k2".to_string()];
    assert_eq!(
        collect_membership_proofs(&vec![], 100, &vec![]).unwrap_err(),
        RelayError::EmptyKeyPaths
    );
    assert_eq!(
        collect_membership_proofs(&keys, 0, &vec![]).unwrap_err(),
        RelayError::ZeroTrustedHeight
    );
    assert_eq!(
        collect_membership_proofs(&keys, 100, &vec![response("k1", &[1], 1, 99)]).unwrap_err(),
        RelayError::ResponseCountMismatch
    );
    let responses = vec![response("k1", &[1], 1, 99), response("k2", &[1], 0, 99)];
    assert_eq!(
        collect_membership_proofs(&keys, 100, &responses).unwrap_err(),
        RelayError::EmptyProofError
    );
}

#[test]
fn forged_membership_root_is_refused() {
    let req = ProofRequest::Membership { commitment_root: vec![0xaa; 32], proofs: vec![] };
    let bundle = ProofBundle {
        public_values: membership_output(&[0xab; 32]),
        proof: "00ff".to_string(),
        verifying_key_id: "0x02".to_string(),
    };
    assert_eq!(validate_proof(&req, &bundle).unwrap_err(), RelayError::OutputInconsistency);
    let bundle = ProofBundle {
        public_values: membership_output(&[0xab; 32]),
        proof: "zz".to_string(),
        verifying_key_id: "0x02".to_string(),
    };
    assert_eq!(validate_proof(&req, &bundle).unwrap_err(), RelayError::OutputInconsistency);
}

#[test]
fn matching_membership_root_is_accepted() {
    let req = ProofRequest::Membership { commitment_root: vec![0xaa; 32], proofs: vec![] };
    let bundle = ProofBundle {
        public_values: membership_output(&[0xaa; 32]),
        proof: "00fF10".to_string(),
        verifying_key_id: "0x02".to_string(),
    };
    let s = validate_proof(&req, &bundle).unwrap();
    assert_eq!(s.proof_bytes, vec![0x00, 0xff, 0x10]);
    assert_eq!(s.public_values, bundle.public_values);
}

#[test]
fn malformed_proof_and_output_are_refused() {
    let req = ProofRequest::Membership { commitment_root: vec![0xaa; 32], proofs: vec![] };
    let bundle = ProofBundle {
        public_values: membership_output(&[0xaa; 32]),
        proof: "abc".to_string(),
        verifying_key_id: String::new(),
    };
    assert_eq!(validate_proof(&req, &bundle).unwrap_err(), RelayError::MalformedProof);
    let bundle = ProofBundle {
        public_values: vec![0, 0, 0, 0, 0, 0, 1, 0, 1],
        proof: "ab".to_string(),
        verifying_key_id: String::new(),
    };
    assert_eq!(validate_proof(&req, &bundle).unwrap_err(), RelayError::MalformedOutput);
}

#[test]
fn stale_update_output_is_refused() {
    let trusted = block("test-1", 100, 0xaa);
    let target = block("test-1", 150, 0xbb);
    let req = build_update_request(&on_chain_state(1, 100), &trusted, target, 5).unwrap();
    let bundle = ProofBundle {
        public_values: update_output(&consensus(0xcc), &consensus(0xbb)),
        proof: "00".to_string(),
        verifying_key_id: String::new(),
    };
    assert_eq!(validate_proof(&req, &bundle).unwrap_err(), RelayError::OutputInconsistency);
}

#[test]
fn target_not_above_trusted_fails_before_proving() {
    let trusted = block("test-1", 100, 0xaa);
    for h in [100u64, 99, 1] {
        let target = block("test-1", h, 0xbb);
        assert_eq!(
            build_update_request(&on_chain_state(1, 100), &trusted, target, 5).unwrap_err(),
            RelayError::HeightNotIncreasing
        );
    }
    let target = block("test-0", 500, 0xbb);
    assert_eq!(
        build_update_request(&on_chain_state(1, 100), &trusted, target, 5).unwrap_err(),
        RelayError::HeightNotIncreasing
    );
}

#[test]
fn update_request_errors() {
    let trusted = block("test-1", 100, 0xaa);
    assert_eq!(
        build_update_request(&on_chain_state(1, 0), &trusted, block("test-1", 150, 0), 5)
            .unwrap_err(),
        RelayError::ZeroTrustedHeight
    );
    let mut frozen = on_chain_state(1, 100);
    frozen.is_frozen = true;
    assert_eq!(
        build_update_request(&frozen, &trusted, block("test-1", 150, 0), 5).unwrap_err(),
        RelayError::ClientFrozen
    );
    assert_eq!(
        build_update_request(&on_chain_state(1, 101), &trusted, block("test-1", 150, 0), 5)
            .unwrap_err(),
        RelayError::HeightMismatch
    );
    assert_eq!(
        build_update_request(&on_chain_state(1, 100), &trusted, block("", 150, 0), 5).unwrap_err(),
        RelayError::IdentifierParseError
    );
}

#[test]
fn end_to_end_single_shot_relay() {
    let trusted = block("test-1", 100, 0xaa);
    let target = block("test-1", 150, 0xbb);
    let trusted_cs = LightBlockWrapper::new(block("test-1", 100, 0xaa)).to_consensus_state();
    let req = build_update_request(&on_chain_state(1, 100), &trusted, target, 77).unwrap();
    match &req {
        ProofRequest::UpdateClient { trusted_consensus_state, header, env } => {
            assert_eq!(header.trusted_height, Height::new(1, 100));
            assert_eq!(header.trusted_next_validator_set, trusted.next_validators);
            assert_eq!(header.signed_header, vec![0x20, 150]);
            assert_eq!(trusted_consensus_state.root, vec![0xaa; 32]);
            assert_eq!(env.now, 77);
            assert_eq!(env.chain_id, "test-1");
            assert_eq!(env.trusting_period, 1_209_600);
        }
        _ => panic!("expected an update request"),
    }
    let bundle = ProofBundle {
        public_values: update_output(&trusted_cs, &consensus(0xbb)),
        proof: "c0ffee".to_string(),
        verifying_key_id: "0x01".to_string(),
    };
    let submission = validate_proof(&req, &bundle).unwrap();
    assert_eq!(submission.proof_bytes, vec![0xc0, 0xff, 0xee]);

    let mut submits = 0;
    let mut phase = Phase::ReadTrustedState;
    let outcome = loop {
        if phase == Phase::Submit {
            submits += 1;
        }
        assert_ne!(phase, Phase::Idle);
        match next_step(Mode::SingleShot, phase, Event::Done) {
            Step::Enter(p) => phase = p,
            Step::Stop(o) => break o,
        }
    };
    assert_eq!(outcome, Outcome::Success);
    assert_eq!(submits, 1);
}

#[test]
fn single_shot_stops_after_submission() {
    assert_eq!(
        next_step(Mode::SingleShot, Phase::Submit, Event::Done),
        Step::Stop(Outcome::Success)
    );
    assert_eq!(
        next_step(Mode::SingleShot, Phase::Prove, Event::Transient),
        Step::Stop(Outcome::Failure)
    );
}

#[test]
fn continuous_loop_pauses_and_retries() {
    assert_eq!(next_step(Mode::Continuous, Phase::Submit, Event::Done), Step::Enter(Phase::Idle));
    assert_eq!(
        next_step(Mode::Continuous, Phase::Idle, Event::Done),
        Step::Enter(Phase::ReadTrustedState)
    );
    assert_eq!(
        next_step(Mode::Continuous, Phase::FetchBlocks, Event::Transient),
        Step::Enter(Phase::Idle)
    );
    assert_eq!(
        next_step(
            Mode::Continuous,
            Phase::ReadTrustedState,
            Event::Fatal(RelayError::ZeroTrustedHeight)
        ),
        Step::Stop(Outcome::Failure)
    );
    assert_eq!(
        next_step(Mode::Continuous, Phase::BuildRequest, Event::Done),
        Step::Enter(Phase::Prove)
    );
}

#[test]
fn genesis_refuses_long_trusting_period() {
    let b = block("test-1", 100, 0xaa);
    let r = SP1ICS07TendermintGenesis::from_env(
        &b,
        Some(31),
        TrustThreshold::one_third(),
        30,
        &keys(),
    );
    assert_eq!(r.unwrap_err(), RelayError::InvalidTrustParameters);
}

#[test]
fn unbonding_seconds_must_fit() {
    assert_eq!(unbonding_period_from_seconds(1_814_400), Ok(1_814_400));
    assert_eq!(unbonding_period_from_seconds(-1), Err(RelayError::NumericOverflow));
    assert_eq!(unbonding_period_from_seconds(1 << 32), Err(RelayError::NumericOverflow));
}

#[test]
fn hex_text_of_bytes() {
    assert_eq!(plain_hex(&[0xab, 0x01, 0xff]), "ab01ff");
    assert_eq!(prefixed_hex(&[0xab, 0x01]), "0xab01");
    assert_eq!(prefixed_hex(&[]), "0x");
}

#[test]
fn fixture_update_request() {
    let trusted = block("test-1", 100, 0xaa);
    let (c, req) = update_client_request(
        &trusted,
        block("test-1", 150, 0xbb),
        TrustThreshold::one_third(),
        90,
        None,
        3,
    )
    .unwrap();
    assert_eq!(c.trusting_period, 60);
    match req {
        ProofRequest::UpdateClient { header, env, .. } => {
            assert_eq!(header.trusted_height, Height::new(1, 100));
            assert_eq!(env.trusting_period, 60);
            assert_eq!(env.now, 3);
        }
        _ => panic!("expected an update request"),
    }
    let r = update_client_request(
        &trusted,
        block("test-1", 100, 0xbb),
        TrustThreshold::one_third(),
        90,
        None,
        3,
    );
    assert_eq!(r.unwrap_err(), RelayError::HeightNotIncreasing);
}

#[test]
fn fixture_membership_request() {
    let trusted = block("test-1", 100, 0xaa);
    let keys = vec!["a".to_string(), "b".to_string()];
    let responses = vec![response("a", &[1], 1, 99), response("b", &[], 1, 99)];
    let (c, s, req) =
        membership_request(&trusted, TrustThreshold::one_third(), 90, Some(10), &keys, &responses)
            .unwrap();
    assert_eq!(c.trusting_period, 10);
    assert_eq!(s.root, vec![0xaa; 32]);
    match req {
        ProofRequest::Membership { commitment_root, proofs } => {
            assert_eq!(commitment_root, vec![0xaa; 32]);
            assert_eq!(proofs.len(), 2);
            assert_eq!(proofs[0].key_path, "a");
            assert!(proofs[1].is_non_membership());
        }
        _ => panic!("expected a membership request"),
    }
    let (c, s) = trusted_states(&trusted, TrustThreshold::one_third(), 90, None).unwrap();
    assert_eq!(c.trusting_period, 60);
    assert_eq!(s.timestamp, trusted.time);
}

#[test]
fn trusted_state_checks() {
    assert_eq!(check_trusted_state(&on_chain_state(1, 100)), Ok(()));
    assert_eq!(check_trusted_state(&on_chain_state(1, 0)), Err(RelayError::ZeroTrustedHeight));
    let mut frozen = on_chain_state(1, 100);
    frozen.is_frozen = true;
    assert_eq!(check_trusted_state(&frozen), Err(RelayError::ClientFrozen));
}

#[test]
fn stale_target_is_retried_other_errors_are_fatal() {
    assert_eq!(failure_event(RelayError::HeightNotIncreasing), Event::Transient);
    assert_eq!(
        failure_event(RelayError::OutputInconsistency),
        Event::Fatal(RelayError::OutputInconsistency)
    );
    assert_eq!(
        next_step(Mode::Continuous, Phase::BuildRequest, failure_event(RelayError::HeightNotIncreasing)),
        Step::Enter(Phase::Idle)
    );
}

#[test]
fn membership_request_refuses_an_empty_proof() {
    let trusted = block("test-1", 100, 0xaa);
    let keys = vec!["a".to_string()];
    let responses = vec![response("a", &[], 0, 99)];
    let r = membership_request(&trusted, TrustThreshold::one_third(), 90, None, &keys, &responses);
    assert_eq!(r.unwrap_err(), RelayError::EmptyProofError);
}

#[test]
fn client_state_round_trip() {
    let c = ClientState {
        chain_id: "cosmoshub-4".to_string(),
        trust_level: TrustThreshold { numerator: 2, denominator: 3 },
        latest_height: Height::new(4, 123_456),
        is_frozen: true,
        trusting_period: 1_209_600,
        unbonding_period: 1_814_400,
    };
    let d = SolClientState::abi_decode(&c.abi_encode(), true).unwrap();
    assert_eq!(d, ("cosmoshub-4".to_string(), (2, 3), (4, 123_456), 1_209_600, 1_814_400, true));
}

#[test]
fn client_state_round_trip_with_non_ascii_chain_id() {
    let mut c = on_chain_state(3, 9);
    c.chain_id = "chäin-3".to_string();
    let d = SolClientState::abi_decode(&c.abi_encode(), true).unwrap();
    assert_eq!(d.0, "chäin-3");
    assert_eq!(d.2, (3, 9));
}

#[test]
fn consensus_state_round_trip() {
    let s = consensus(0xab);
    let d = SolCs::abi_decode(&s.abi_encode().unwrap(), true).unwrap();
    assert_eq!(d, sol_cs(&s));
}

#[test]
fn consensus_state_exact_encoding() {
    let s = ConsensusState { timestamp: 258, root: vec![0xaa; 32], next_validators_hash: vec![0x11; 32] };
    let mut expected = vec![0u8; 30];
    expected.extend_from_slice(&[1, 2]);
    expected.extend_from_slice(&[0xaa; 32]);
    expected.extend_from_slice(&[0x11; 32]);
    assert_eq!(s.abi_encode().unwrap(), expected);
}

#[test]
fn consensus_state_needs_32_byte_digests() {
    let s = ConsensusState { timestamp: 1, root: vec![1, 2, 3], next_validators_hash: vec![0; 32] };
    assert_eq!(s.abi_encode().unwrap_err(), RelayError::MalformedDigest);
}

#[test]
fn update_and_membership_output_is_checked_against_the_trusted_state() {
    let header = LightBlockWrapper::new(block("test-1", 150, 0xbb))
        .into_header(&block("test-1", 100, 0xaa))
        .unwrap();
    let env = sp1_ics07_tendermint_operator::Env {
        chain_id: "test-1".to_string(),
        trust_threshold: TrustThreshold::one_third(),
        trusting_period: 10,
        now: 1,
    };
    let req = ProofRequest::UpdateAndMembership {
        trusted_consensus_state: consensus(0xaa),
        header,
        env,
        proofs: vec![],
    };
    let bundle = ProofBundle {
        public_values: uc_and_membership_output(&consensus(0xaa), &consensus(0xbb)),
        proof: "01".to_string(),
        verifying_key_id: String::new(),
    };
    assert!(validate_proof(&req, &bundle).is_ok());
    let bundle = ProofBundle {
        public_values: uc_and_membership_output(&consensus(0xcc), &consensus(0xbb)),
        proof: "01".to_string(),
        verifying_key_id: String::new(),
    };
    assert_eq!(validate_proof(&req, &bundle).unwrap_err(), RelayError::OutputInconsistency);
    let bundle = ProofBundle {
        public_values: update_output(&consensus(0xaa), &consensus(0xbb)),
        proof: "01".to_string(),
        verifying_key_id: String::new(),
    };
    assert_eq!(validate_proof(&req, &bundle).unwrap_err(), RelayError::MalformedOutput);
}

#[test]
fn output_parts_are_exposed() {
    let out = update_output(&consensus(0xaa), &consensus(0xbb));
    let n = update_output_new_consensus_state(&out).unwrap();
    assert_eq!(n.root, vec![0xbb; 32]);
    assert_eq!(n.timestamp, 7);
    assert!(update_output_new_consensus_state(&[0, 1]).is_none());
    let kv = membership_output_kv_pairs(&membership_output(&[0xaa; 32])).unwrap();
    assert_eq!(kv, SolKvPairs::abi_encode(&kv_pairs()));
    assert!(membership_output_kv_pairs(&[0, 0, 0, 0, 0, 0, 0, 9, 1]).is_none());
}

#[test]
fn genesis_with_default_trusting_period() {
    let b = block("test-1", 100, 0xaa);
    let g = SP1ICS07TendermintGenesis::from_env(&b, None, TrustThreshold::one_third(), 30, &keys())
        .unwrap();
    let c = SolClientState::abi_decode(&g.trusted_client_state, true).unwrap();
    assert_eq!(c, ("test-1".to_string(), (1, 3), (1, 100), 20, 30, false));
    let s = SolCs::abi_decode(&g.trusted_consensus_state, true).unwrap();
    assert_eq!(s, (b.time, Word::from_slice(&[0xaa; 32]), Word::from_slice(&[0x11; 32])));
    assert_eq!(g.update_client_vkey, "0x01");
    assert_eq!(g.membership_vkey, "0x02");
    assert_eq!(g.uc_and_membership_vkey, "0x03");
    assert_eq!(g.trusted_client_state_hex(), plain_hex(&g.trusted_client_state));
    let expected = format!("{:064x}{}{}", b.time, "aa".repeat(32), "11".repeat(32));
    assert_eq!(g.trusted_consensus_state_hex(), expected);
}

#[test]
fn genesis_refuses_zero_height_and_short_digests() {
    let r = SP1ICS07TendermintGenesis::from_env(
        &block("test-1", 0, 0xaa),
        None,
        TrustThreshold::one_third(),
        30,
        &keys(),
    );
    assert_eq!(r.unwrap_err(), RelayError::ZeroTrustedHeight);
    let mut b = block("test-1", 5, 0xaa);
    b.app_hash = vec![1; 20];
    let r = SP1ICS07TendermintGenesis::from_env(&b, None, TrustThreshold::one_third(), 30, &keys());
    assert_eq!(r.unwrap_err(), RelayError::MalformedDigest);
    let r = SP1ICS07TendermintGenesis::from_env(
        &block("test-1", 5, 0xaa),
        None,
        TrustThreshold { numerator: 1, denominator: 256 },
        30,
        &keys(),
    );
    assert_eq!(r.unwrap_err(), RelayError::NumericOverflow);
}
