use helios_light_client::detect::{ForkDetector, Reports, WitnessOutcome, MIN_TRACE_BLOCKS};
use tendermint::block::{Commit, Header, Height};
use tendermint::block::header::Version;
use tendermint::block::signed_header::SignedHeader;
use tendermint::{account, node, validator, AppHash, Time};
use tendermint_light_client::types::LightBlock;

fn block(height: u32) -> LightBlock {
    let header = Header {
        version: Version { block: 11, app: 0 },
        chain_id: "test-chain".parse().unwrap(),
        height: Height::from(height),
        time: Time::unix_epoch(),
        last_block_id: None,
        last_commit_hash: None,
        data_hash: None,
        validators_hash: tendermint::Hash::None,
        next_validators_hash: tendermint::Hash::None,
        consensus_hash: tendermint::Hash::None,
        app_hash: AppHash::default(),
        last_results_hash: None,
        evidence_hash: None,
        proposer_address: account::Id::new([0; 20]),
    };
    let commit = Commit { height: Height::from(height), ..Commit::default() };
    let signed_header = SignedHeader::new(header, commit).unwrap();
    LightBlock::new(
        signed_header,
        validator::Set::without_proposer(Vec::new()),
        validator::Set::without_proposer(Vec::new()),
        node::Id::new([1; 20]),
    )
}

fn heights(blocks: Vec<LightBlock>) -> Vec<u64> {
    blocks.iter().map(|block| block.height().value()).collect()
}

#[test]
fn trace_needs_the_trusted_and_the_target_block() {
    assert_eq!(MIN_TRACE_BLOCKS, 2);
    let (detector, trace) = ForkDetector::start(2, Vec::new());
    assert!(trace.is_none());
    assert_eq!(detector.next_witness(), None);

    let (detector, trace) = ForkDetector::start(2, vec![block(100)]);
    assert!(trace.is_none());
    assert_eq!(detector.next_witness(), None);
    assert!(!detector.fork_detected());

    let (detector, trace) = ForkDetector::start(2, vec![block(100), block(150)]);
    assert_eq!(heights(trace.unwrap().into_vec()), vec![100, 150]);
    assert_eq!(detector.next_witness(), Some(0));
}

#[test]
fn trace_comes_back_ordered_by_height() {
    let (_, trace) = ForkDetector::start(1, vec![block(150), block(100), block(130)]);
    let trace = trace.unwrap();
    assert_eq!(trace.first().height().value(), 100);
    assert_eq!(trace.last().height().value(), 150);
    assert_eq!(heights(trace.into_vec()), vec![100, 130, 150]);
}

#[test]
fn no_witnesses_means_no_trace_and_no_fork() {
    let (mut detector, trace) = ForkDetector::start(0, vec![block(100), block(150)]);
    assert!(trace.is_none());
    assert_eq!(detector.next_witness(), None);
    let asked = detector.record(WitnessOutcome::Diverged { against_witness: true });
    assert_eq!(asked, Reports { to_witness: false, to_primary: false });
    assert!(!detector.fork_detected());
}

#[test]
fn round_from_a_trace_examines_every_witness() {
    let (mut detector, trace) = ForkDetector::start(3, vec![block(100), block(150)]);
    assert!(trace.is_some());
    let outcomes = [
        WitnessOutcome::Failed,
        WitnessOutcome::Diverged { against_witness: true },
        WitnessOutcome::Agreed,
    ];
    let mut examined = Vec::new();
    while let Some(witness) = detector.next_witness() {
        examined.push(witness);
        detector.record(outcomes[witness]);
    }
    assert_eq!(examined, vec![0, 1, 2]);
    assert!(detector.fork_detected());
}
