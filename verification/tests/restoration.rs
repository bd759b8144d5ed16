use abci::block::Height;
use abci::response::{ApplySnapshotChunk, ApplySnapshotChunkResult, Info, OfferSnapshot};
use abci::sync::{matches_verified_state, Input, Phase, Restoration};
use abci::types::Snapshot;
use bytes::Bytes;

fn answer(result: ApplySnapshotChunkResult, refetch: Vec<u32>, reject: Vec<&str>) -> Input {
    Input::ChunkAnswered(ApplySnapshotChunk {
        result,
        refetch_chunks: refetch,
        reject_senders: reject.into_iter().map(|s| s.to_string()).collect(),
    })
}

fn accept() -> Input {
    answer(ApplySnapshotChunkResult::Accept, vec![], vec![])
}

/// A restoration of a snapshot with the given number of chunks, accepted by
/// the application, with nothing applied yet.
fn applying(chunks: u32) -> Restoration {
    let state = Restoration::new();
    let state = state.step(Input::Offer { chunks }).unwrap();
    state.step(Input::OfferAnswered(OfferSnapshot::Accept)).unwrap()
}

#[test]
fn starts_without_a_snapshot() {
    let state = Restoration::new();
    assert_eq!(state.phase(), Phase::NoSnapshot);
    assert_eq!(state.due_chunk(), None);
    assert!(state.refetch_queue().is_empty());
}

#[test]
fn offer_then_accept_starts_with_chunk_zero() {
    let state = Restoration::new().step(Input::Offer { chunks: 3 }).unwrap();
    assert_eq!(state.phase(), Phase::Offered);
    assert_eq!(state.due_chunk(), None);
    let state = state.step(Input::OfferAnswered(OfferSnapshot::Accept)).unwrap();
    assert_eq!(state.phase(), Phase::Applying);
    assert_eq!(state.due_chunk(), Some(0));
}

#[test]
fn accepted_chunks_follow_the_order_of_the_snapshot() {
    let mut state = applying(3);
    for index in 0..3 {
        assert_eq!(state.phase(), Phase::Applying);
        assert_eq!(state.due_chunk(), Some(index));
        state = state.step(accept()).unwrap();
    }
    assert_eq!(state.phase(), Phase::Completed);
    assert_eq!(state.due_chunk(), None);
}

#[test]
fn retry_with_refetch_reapplies_chunk_zero_before_chunk_two() {
    // Chunk 0 is accepted, chunk 1 is answered with a retry that asks for
    // chunk 0 again.
    let state = applying(3);
    let state = state.step(accept()).unwrap();
    assert_eq!(state.due_chunk(), Some(1));
    let state = state.step(answer(ApplySnapshotChunkResult::Retry, vec![0], vec![])).unwrap();
    assert_eq!(state.phase(), Phase::Applying);
    assert_eq!(state.refetch_queue(), &vec![0]);
    assert_eq!(state.due_chunk(), Some(0));
    // Chunk 0 again, then the chunk that was to be retried, then chunk 2.
    let state = state.step(accept()).unwrap();
    assert_eq!(state.due_chunk(), Some(1));
    let state = state.step(accept()).unwrap();
    assert_eq!(state.due_chunk(), Some(2));
    let state = state.step(accept()).unwrap();
    assert_eq!(state.phase(), Phase::Completed);
}

#[test]
fn refetch_is_honoured_with_an_accept_too() {
    let state = applying(3);
    let state = state.step(accept()).unwrap();
    let state = state.step(answer(ApplySnapshotChunkResult::Accept, vec![1, 0], vec![])).unwrap();
    assert_eq!(state.refetch_queue(), &vec![1, 0]);
    assert_eq!(state.due_chunk(), Some(1));
    let state = state.step(accept()).unwrap();
    assert_eq!(state.due_chunk(), Some(0));
    let state = state.step(accept()).unwrap();
    assert_eq!(state.due_chunk(), Some(2));
}

#[test]
fn new_refetches_come_before_pending_ones() {
    let state = applying(5);
    let state = state.step(answer(ApplySnapshotChunkResult::Accept, vec![3, 4], vec![])).unwrap();
    assert_eq!(state.due_chunk(), Some(3));
    let state = state.step(answer(ApplySnapshotChunkResult::Retry, vec![0], vec![])).unwrap();
    assert_eq!(state.refetch_queue(), &vec![0, 3, 4]);
    let state = state.step(answer(ApplySnapshotChunkResult::Accept, vec![2], vec![])).unwrap();
    assert_eq!(state.refetch_queue(), &vec![2, 3, 4]);
    assert_eq!(state.due_chunk(), Some(2));
}

#[test]
fn last_chunk_with_refetch_does_not_complete() {
    let state = applying(1);
    let state = state.step(answer(ApplySnapshotChunkResult::Accept, vec![0], vec![])).unwrap();
    assert_eq!(state.phase(), Phase::Applying);
    assert_eq!(state.due_chunk(), Some(0));
    let state = state.step(accept()).unwrap();
    assert_eq!(state.phase(), Phase::Completed);
}

#[test]
fn retry_repeats_the_chunk() {
    let state = applying(2);
    let state = state.step(answer(ApplySnapshotChunkResult::Retry, vec![], vec![])).unwrap();
    assert_eq!(state.phase(), Phase::Applying);
    assert_eq!(state.due_chunk(), Some(0));
}

#[test]
fn abort_ends_the_restoration() {
    let state = applying(2);
    let state = state.step(answer(ApplySnapshotChunkResult::Abort, vec![1], vec!["p"])).unwrap();
    assert_eq!(state.phase(), Phase::Aborted);
    assert_eq!(state.due_chunk(), None);
    assert!(state.is_banned(&"p".to_string()));
    let refused = state.step(Input::Offer { chunks: 4 }).unwrap_err();
    assert_eq!(refused.state.phase(), Phase::Aborted);
}

#[test]
fn unknown_result_is_treated_as_abort() {
    let aborted = applying(2)
        .step(answer(ApplySnapshotChunkResult::Abort, vec![1], vec!["p"]))
        .unwrap();
    let unknown = applying(2)
        .step(answer(ApplySnapshotChunkResult::Unknown, vec![1], vec!["p"]))
        .unwrap();
    assert_eq!(unknown.phase(), Phase::Aborted);
    assert_eq!(unknown, aborted);
}

#[test]
fn retry_snapshot_offers_the_same_snapshot_anew() {
    let state = applying(3);
    let state = state.step(accept()).unwrap();
    let state =
        state.step(answer(ApplySnapshotChunkResult::RetrySnapshot, vec![2], vec![])).unwrap();
    assert_eq!(state.phase(), Phase::Offered);
    assert_eq!(state.due_chunk(), None);
    let state = state.step(Input::OfferAnswered(OfferSnapshot::Accept)).unwrap();
    assert_eq!(state.phase(), Phase::Applying);
    assert_eq!(state.due_chunk(), Some(2));
    let state = state.step(accept()).unwrap();
    assert_eq!(state.due_chunk(), Some(0));
}

#[test]
fn reject_snapshot_waits_for_another_offer() {
    let state = applying(3);
    let state =
        state.step(answer(ApplySnapshotChunkResult::RejectSnapshot, vec![0], vec![])).unwrap();
    assert_eq!(state.phase(), Phase::AwaitingNewOffer);
    assert!(state.refetch_queue().is_empty());
    let state = state.step(Input::Offer { chunks: 1 }).unwrap();
    assert_eq!(state.phase(), Phase::Offered);
    let state = state.step(Input::OfferAnswered(OfferSnapshot::Accept)).unwrap();
    assert_eq!(state.due_chunk(), Some(0));
}

#[test]
fn timeout_gives_the_snapshot_up() {
    let state = applying(3).step(accept()).unwrap();
    let state = state.step(Input::ChunkTimedOut).unwrap();
    assert_eq!(state.phase(), Phase::AwaitingNewOffer);
    assert!(state.step(Input::Offer { chunks: 2 }).is_ok());
}

#[test]
fn offer_answers_decide_the_phase() {
    let offered = || Restoration::new().step(Input::Offer { chunks: 2 }).unwrap();
    let phase = |answer| offered().step(Input::OfferAnswered(answer)).unwrap().phase();
    assert_eq!(phase(OfferSnapshot::Accept), Phase::Applying);
    assert_eq!(phase(OfferSnapshot::Abort), Phase::Aborted);
    assert_eq!(phase(OfferSnapshot::Unknown), Phase::Aborted);
    assert_eq!(phase(OfferSnapshot::Reject), Phase::AwaitingNewOffer);
    assert_eq!(phase(OfferSnapshot::RejectFormat), Phase::AwaitingNewOffer);
    assert_eq!(phase(OfferSnapshot::RejectSender), Phase::AwaitingNewOffer);
}

#[test]
fn snapshot_without_chunks_completes_on_acceptance() {
    let state = applying(0);
    assert_eq!(state.phase(), Phase::Completed);
}

#[test]
fn inputs_out_of_turn_are_refused_and_change_nothing() {
    let state = Restoration::new();
    let refused = state.step(accept()).unwrap_err();
    assert_eq!(refused.state, Restoration::new());
    let refused = refused.state.step(Input::ChunkTimedOut).unwrap_err();
    let refused = refused.state.step(Input::OfferAnswered(OfferSnapshot::Accept)).unwrap_err();
    assert_eq!(refused.state.phase(), Phase::NoSnapshot);

    let state = applying(2);
    let refused = state.step(Input::Offer { chunks: 9 }).unwrap_err();
    assert_eq!(refused.state.phase(), Phase::Applying);
    assert_eq!(refused.state.due_chunk(), Some(0));

    let done = applying(1).step(accept()).unwrap();
    assert_eq!(done.phase(), Phase::Completed);
    assert!(done.step(accept()).is_err());
}

#[test]
fn rejected_senders_are_banned_whatever_the_result() {
    let state = applying(4);
    assert!(!state.is_banned(&"a".to_string()));
    let state = state.step(answer(ApplySnapshotChunkResult::Accept, vec![], vec!["a"])).unwrap();
    assert!(state.is_banned(&"a".to_string()));
    assert!(!state.is_banned(&"b".to_string()));
    // The accepted chunk stays accepted.
    assert_eq!(state.due_chunk(), Some(1));
    let state = state.step(answer(ApplySnapshotChunkResult::Retry, vec![], vec!["b"])).unwrap();
    assert!(state.is_banned(&"a".to_string()));
    assert!(state.is_banned(&"b".to_string()));
    assert_eq!(state.due_chunk(), Some(1));
    let state =
        state.step(answer(ApplySnapshotChunkResult::RejectSnapshot, vec![], vec!["c"])).unwrap();
    assert!(state.is_banned(&"a".to_string()));
    assert!(state.is_banned(&"c".to_string()));
    let state = state.step(Input::Offer { chunks: 1 }).unwrap();
    assert!(state.is_banned(&"b".to_string()));
    assert!(!state.is_banned(&"".to_string()));
}

fn info(height: u64, hash: &'static [u8]) -> Info {
    Info {
        data: String::new(),
        version: String::new(),
        app_version: 1,
        last_block_height: Height::new(height).unwrap(),
        last_block_app_hash: Bytes::from_static(hash),
    }
}

#[test]
fn restored_state_is_compared_with_the_verified_state() {
    let height = Height::new(7).unwrap();
    let hash = Bytes::from_static(b"root");
    assert!(matches_verified_state(&info(7, b"root"), height, &hash));
    assert!(!matches_verified_state(&info(8, b"root"), height, &hash));
    assert!(!matches_verified_state(&info(7, b"toor"), height, &hash));
    assert!(!matches_verified_state(&info(7, b"roo"), height, &hash));
    assert!(!matches_verified_state(&info(7, b""), height, &hash));
    // Two buffers of the same bytes are the same, wherever they live.
    let copy = Bytes::from(b"root".to_vec());
    assert!(matches_verified_state(&info(7, b"root"), height, &copy));
}

#[test]
fn a_cloned_snapshot_says_the_same() {
    let snapshot = Snapshot {
        height: 7,
        format: 1,
        chunks: 3,
        hash: Bytes::from_static(b"hash"),
        metadata: Bytes::from_static(b"meta"),
    };
    let copy = snapshot.clone();
    assert_eq!(copy, snapshot);
    assert_eq!(copy.hash, Bytes::from_static(b"hash"));
    assert_eq!(copy.metadata, Bytes::from_static(b"meta"));
    assert_eq!((copy.height, copy.format, copy.chunks), (7, 1, 3));
}
