use abci::error::WrongCategory;
use abci::kind::MethodKind;
use abci::request::{
    self, ConsensusRequest, InfoRequest, MempoolRequest, Request, SnapshotRequest,
};
use abci::response::{
    self, ConsensusResponse, InfoResponse, MempoolResponse, Response, SnapshotResponse,
};
use abci::types::Snapshot;
use bytes::Bytes;
use std::convert::TryFrom;

fn snapshot() -> Snapshot {
    Snapshot {
        height: 7,
        format: 1,
        chunks: 3,
        hash: Bytes::from_static(b"hash"),
        metadata: Bytes::from_static(b"meta"),
    }
}

fn every_request() -> Vec<Request> {
    vec![
        Request::Echo(request::Echo { message: "ping".to_string() }),
        Request::Flush,
        Request::Info(request::Info {
            version: "0.35.0".to_string(),
            block_version: 11,
            p2p_version: 8,
            abci_version: "0.17.0".to_string(),
        }),
        Request::CheckTx(request::CheckTx {
            tx: Bytes::from_static(b"tx"),
            kind: request::CheckTxKind::Recheck,
        }),
        Request::DeliverTx(request::DeliverTx { tx: Bytes::from_static(b"tx") }),
        Request::EndBlock(request::EndBlock { height: 5 }),
        Request::Commit,
        Request::ListSnapshots,
        Request::OfferSnapshot(request::OfferSnapshot {
            snapshot: snapshot(),
            app_hash: Bytes::from_static(b"app"),
        }),
        Request::LoadSnapshotChunk(request::LoadSnapshotChunk { height: 7, format: 1, chunk: 2 }),
        Request::ApplySnapshotChunk(request::ApplySnapshotChunk {
            index: 2,
            chunk: Bytes::from_static(b"chunk"),
            sender: "peer".to_string(),
        }),
    ]
}

#[test]
fn commit_is_a_consensus_request() {
    assert_eq!(Request::Commit.kind(), MethodKind::Consensus);
}

#[test]
fn commit_does_not_narrow_to_mempool() {
    assert_eq!(MempoolRequest::try_from(Request::Commit), Err(WrongCategory));
}

#[test]
fn flush_is_its_own_kind_and_narrows_to_nothing() {
    assert_eq!(Request::Flush.kind(), MethodKind::Flush);
    assert_eq!(ConsensusRequest::try_from(Request::Flush), Err(WrongCategory));
    assert_eq!(MempoolRequest::try_from(Request::Flush), Err(WrongCategory));
    assert_eq!(InfoRequest::try_from(Request::Flush), Err(WrongCategory));
    assert_eq!(SnapshotRequest::try_from(Request::Flush), Err(WrongCategory));
}

#[test]
fn kind_table_of_requests() {
    let kinds: Vec<MethodKind> = every_request().iter().map(|r| r.kind()).collect();
    assert_eq!(
        kinds,
        vec![
            MethodKind::Info,
            MethodKind::Flush,
            MethodKind::Info,
            MethodKind::Mempool,
            MethodKind::Consensus,
            MethodKind::Consensus,
            MethodKind::Consensus,
            MethodKind::Snapshot,
            MethodKind::Snapshot,
            MethodKind::Snapshot,
            MethodKind::Snapshot,
        ]
    );
}

#[test]
fn a_request_narrows_exactly_to_its_kind() {
    for request in every_request() {
        let kind = request.kind();
        let consensus = ConsensusRequest::try_from(request.clone());
        let mempool = MempoolRequest::try_from(request.clone());
        let info = InfoRequest::try_from(request.clone());
        let snapshot = SnapshotRequest::try_from(request.clone());
        assert_eq!(consensus.is_ok(), kind == MethodKind::Consensus);
        assert_eq!(mempool.is_ok(), kind == MethodKind::Mempool);
        assert_eq!(info.is_ok(), kind == MethodKind::Info);
        assert_eq!(snapshot.is_ok(), kind == MethodKind::Snapshot);
        if let Ok(narrow) = consensus {
            assert_eq!(Request::from(narrow), request);
        }
        if let Ok(narrow) = mempool {
            assert_eq!(Request::from(narrow), request);
        }
        if let Ok(narrow) = info {
            assert_eq!(Request::from(narrow), request);
        }
        if let Ok(narrow) = snapshot {
            assert_eq!(Request::from(narrow), request);
        }
    }
}

#[test]
fn widening_then_narrowing_a_request_is_the_identity() {
    let consensus = ConsensusRequest::DeliverTx(request::DeliverTx { tx: Bytes::from_static(b"a") });
    assert_eq!(ConsensusRequest::try_from(Request::from(consensus.clone())), Ok(consensus));
    let mempool = MempoolRequest::CheckTx(request::CheckTx {
        tx: Bytes::from_static(b"b"),
        kind: request::CheckTxKind::New,
    });
    assert_eq!(MempoolRequest::try_from(Request::from(mempool.clone())), Ok(mempool));
    let info = InfoRequest::Echo(request::Echo { message: "hi".to_string() });
    assert_eq!(InfoRequest::try_from(Request::from(info.clone())), Ok(info));
    let snapshot = SnapshotRequest::ListSnapshots;
    assert_eq!(SnapshotRequest::try_from(Request::from(snapshot.clone())), Ok(snapshot));
}

#[test]
fn widened_requests_keep_their_kind() {
    assert_eq!(Request::from(ConsensusRequest::Commit).kind(), MethodKind::Consensus);
    assert_eq!(Request::from(SnapshotRequest::ListSnapshots).kind(), MethodKind::Snapshot);
    let echo = InfoRequest::Echo(request::Echo { message: String::new() });
    assert_eq!(Request::from(echo).kind(), MethodKind::Info);
}

#[test]
fn a_response_narrows_to_one_kind_at_most() {
    let commit = Response::Commit(response::Commit {
        data: Bytes::from_static(b"root"),
        retain_height: abci::block::Height::new(3).unwrap(),
    });
    assert!(ConsensusResponse::try_from(commit.clone()).is_ok());
    assert_eq!(MempoolResponse::try_from(commit.clone()), Err(WrongCategory));
    assert_eq!(InfoResponse::try_from(commit.clone()), Err(WrongCategory));
    assert_eq!(SnapshotResponse::try_from(commit.clone()), Err(WrongCategory));
    let narrow = ConsensusResponse::try_from(commit.clone()).unwrap();
    assert_eq!(Response::from(narrow), commit);
}

#[test]
fn exception_and_flush_responses_narrow_to_nothing() {
    let exception = Response::Exception(response::Exception { error: "boom".to_string() });
    for response in [exception, Response::Flush] {
        assert_eq!(ConsensusResponse::try_from(response.clone()), Err(WrongCategory));
        assert_eq!(MempoolResponse::try_from(response.clone()), Err(WrongCategory));
        assert_eq!(InfoResponse::try_from(response.clone()), Err(WrongCategory));
        assert_eq!(SnapshotResponse::try_from(response.clone()), Err(WrongCategory));
    }
}

#[test]
fn responses_of_each_kind_narrow_and_widen() {
    let check = Response::CheckTx(response::CheckTx {
        code: 1,
        data: Bytes::new(),
        log: "log".to_string(),
        info: String::new(),
        gas_wanted: 10,
        gas_used: 4,
        events: vec![],
        codespace: "app".to_string(),
        sender: "peer".to_string(),
        priority: 2,
        mempool_error: String::new(),
    });
    let narrow = MempoolResponse::try_from(check.clone()).unwrap();
    assert_eq!(Response::from(narrow), check);

    let echo = Response::Echo(response::Echo { message: "pong".to_string() });
    let narrow = InfoResponse::try_from(echo.clone()).unwrap();
    assert_eq!(Response::from(narrow), echo);

    let offer = Response::OfferSnapshot(response::OfferSnapshot::Accept);
    let narrow = SnapshotResponse::try_from(offer.clone()).unwrap();
    assert_eq!(narrow, SnapshotResponse::OfferSnapshot(response::OfferSnapshot::Accept));
    assert_eq!(Response::from(narrow), offer);
    assert_eq!(ConsensusResponse::try_from(offer), Err(WrongCategory));
}
