use abci::block::Height;
use abci::error::DecodeError;
use abci::request::{self, Request};
use abci::response::{self, ApplySnapshotChunkResult, Response};
use abci::types::{
    BlockParams, ConsensusParams, Event, EventAttribute, Evidence, Header, LastCommitInfo,
    ProofOp, ProofOps, PublicKey, PublicKeySum, Snapshot, Timestamp, Validator, ValidatorUpdate,
    VoteInfo,
};
use abci::wire;
use bytes::Bytes;
use std::convert::TryFrom;

fn snapshot() -> Snapshot {
    Snapshot {
        height: 7,
        format: 1,
        chunks: 3,
        hash: Bytes::from_static(b"hash"),
        metadata: Bytes::from_static(b"meta"),
    }
}

fn event() -> Event {
    Event {
        kind: "transfer".to_string(),
        attributes: vec![EventAttribute {
            key: "amount".to_string(),
            value: "5".to_string(),
            index: true,
        }],
    }
}

fn params() -> ConsensusParams {
    ConsensusParams {
        block: Some(BlockParams { max_bytes: 1024, max_gas: -1 }),
        evidence: None,
        validator: None,
        version: None,
    }
}

fn update() -> ValidatorUpdate {
    ValidatorUpdate {
        pub_key: Some(PublicKey { sum: Some(PublicKeySum::Ed25519(vec![1, 2, 3])) }),
        power: 10,
    }
}

fn header() -> Header {
    Header {
        version: None,
        chain_id: "chain".to_string(),
        height: 9,
        time: Some(Timestamp { seconds: 100, nanos: 5 }),
        last_block_id: None,
        last_commit_hash: vec![1],
        data_hash: vec![2],
        validators_hash: vec![3],
        next_validators_hash: vec![4],
        consensus_hash: vec![5],
        app_hash: vec![6],
        last_results_hash: vec![7],
        evidence_hash: vec![8],
        proposer_address: vec![9],
    }
}

fn commit_info() -> LastCommitInfo {
    LastCommitInfo {
        round: 1,
        votes: vec![VoteInfo {
            validator: Some(Validator { address: Bytes::from_static(b"addr"), power: 3 }),
            signed_last_block: true,
        }],
    }
}

fn init_chain() -> request::InitChain {
    request::InitChain {
        time: Timestamp { seconds: 1, nanos: 2 },
        chain_id: "chain".to_string(),
        consensus_params: params(),
        validators: vec![update()],
        app_state_bytes: Bytes::from_static(b"{}"),
        initial_height: Height::new(1).unwrap(),
    }
}

fn begin_block() -> request::BeginBlock {
    request::BeginBlock {
        hash: Bytes::from_static(b"block"),
        header: header(),
        last_commit_info: commit_info(),
        byzantine_validators: vec![Evidence {
            kind: 1,
            validator: None,
            height: 4,
            time: None,
            total_voting_power: 30,
        }],
    }
}

fn every_request() -> Vec<Request> {
    vec![
        Request::Echo(request::Echo { message: "ping".to_string() }),
        Request::Flush,
        Request::Info(request::Info {
            version: "0.35.0".to_string(),
            block_version: 11,
            p2p_version: 8,
            abci_version: "0.17.0".to_string(),
        }),
        Request::InitChain(init_chain()),
        Request::Query(request::Query {
            data: Bytes::from_static(b"key"),
            path: "/store".to_string(),
            height: Height::new(0).unwrap(),
            prove: true,
        }),
        Request::BeginBlock(begin_block()),
        Request::CheckTx(request::CheckTx {
            tx: Bytes::from_static(b"tx"),
            kind: request::CheckTxKind::Recheck,
        }),
        Request::DeliverTx(request::DeliverTx { tx: Bytes::from_static(b"tx") }),
        Request::EndBlock(request::EndBlock { height: -5 }),
        Request::Commit,
        Request::ListSnapshots,
        Request::OfferSnapshot(request::OfferSnapshot {
            snapshot: snapshot(),
            app_hash: Bytes::from_static(b"app"),
        }),
        Request::LoadSnapshotChunk(request::LoadSnapshotChunk {
            height: u64::MAX,
            format: 1,
            chunk: 2,
        }),
        Request::ApplySnapshotChunk(request::ApplySnapshotChunk {
            index: 2,
            chunk: Bytes::from_static(b"chunk"),
            sender: "peer".to_string(),
        }),
    ]
}

fn every_response() -> Vec<Response> {
    vec![
        Response::Exception(response::Exception { error: "boom".to_string() }),
        Response::Echo(response::Echo { message: "pong".to_string() }),
        Response::Flush,
        Response::Info(response::Info {
            data: "app".to_string(),
            version: "1.0".to_string(),
            app_version: 3,
            last_block_height: Height::new(i64::MAX as u64).unwrap(),
            last_block_app_hash: Bytes::from_static(b"root"),
        }),
        Response::InitChain(response::InitChain {
            consensus_params: Some(params()),
            validators: vec![update()],
            app_hash: Bytes::from_static(b"root"),
        }),
        Response::Query(response::Query {
            code: 0,
            log: "ok".to_string(),
            info: String::new(),
            index: 4,
            key: Bytes::from_static(b"k"),
            value: Bytes::from_static(b"v"),
            proof: Some(ProofOps {
                ops: vec![ProofOp { kind: "iavl".to_string(), key: vec![1], data: vec![2] }],
            }),
            height: Height::new(12).unwrap(),
            codespace: "app".to_string(),
        }),
        Response::BeginBlock(response::BeginBlock { events: vec![event(), event()] }),
        Response::CheckTx(response::CheckTx {
            code: 1,
            data: Bytes::from_static(b"d"),
            log: "log".to_string(),
            info: "info".to_string(),
            gas_wanted: 10,
            gas_used: 4,
            events: vec![event()],
            codespace: "app".to_string(),
            sender: "peer".to_string(),
            priority: 2,
            mempool_error: String::new(),
        }),
        Response::DeliverTx(response::DeliverTx {
            code: 0,
            data: Bytes::new(),
            log: String::new(),
            info: String::new(),
            gas_wanted: 1,
            gas_used: 1,
            events: vec![],
            codespace: String::new(),
        }),
        Response::EndBlock(response::EndBlock {
            validator_updates: vec![update()],
            consensus_param_updates: None,
            events: vec![event()],
        }),
        Response::Commit(response::Commit {
            data: Bytes::from_static(b"root"),
            retain_height: Height::new(3).unwrap(),
        }),
        Response::ListSnapshots(response::ListSnapshots { snapshots: vec![snapshot()] }),
        Response::OfferSnapshot(response::OfferSnapshot::RejectFormat),
        Response::LoadSnapshotChunk(response::LoadSnapshotChunk {
            chunk: Bytes::from_static(b"chunk"),
        }),
        Response::ApplySnapshotChunk(response::ApplySnapshotChunk {
            result: ApplySnapshotChunkResult::Retry,
            refetch_chunks: vec![0],
            reject_senders: vec!["peer".to_string()],
        }),
    ]
}

#[test]
fn echo_ping_round_trip() {
    let echo = Request::Echo(request::Echo { message: "ping".to_string() });
    let record = wire::Request::from(echo.clone());
    assert_eq!(
        record,
        wire::Request {
            value: Some(wire::RequestValue::Echo(wire::RequestEcho {
                message: "ping".to_string()
            })),
        }
    );
    assert_eq!(Request::try_from(record), Ok(echo));
}

#[test]
fn every_request_round_trips() {
    let requests = every_request();
    assert_eq!(requests.len(), 14);
    for request in requests {
        let record = wire::Request::from(request.clone());
        assert!(record.value.is_some());
        assert_eq!(Request::try_from(record), Ok(request));
    }
}

#[test]
fn every_response_round_trips() {
    let responses = every_response();
    assert_eq!(responses.len(), 15);
    for response in responses {
        let record = wire::Response::from(response.clone());
        assert!(record.value.is_some());
        assert_eq!(Response::try_from(record), Ok(response));
    }
}

#[test]
fn encoding_is_deterministic() {
    for request in every_request() {
        assert_eq!(wire::Request::from(request.clone()), wire::Request::from(request));
    }
}

#[test]
fn encoding_keeps_the_variant_and_the_fields() {
    let record = wire::Request::from(Request::Query(request::Query {
        data: Bytes::from_static(b"key"),
        path: "/store".to_string(),
        height: Height::new(12).unwrap(),
        prove: true,
    }));
    assert_eq!(
        record.value,
        Some(wire::RequestValue::Query(wire::RequestQuery {
            data: Bytes::from_static(b"key"),
            path: "/store".to_string(),
            height: 12,
            prove: true,
        }))
    );
    assert_eq!(wire::Request::from(Request::Flush).value, Some(wire::RequestValue::Flush));
    assert_eq!(wire::Request::from(Request::Commit).value, Some(wire::RequestValue::Commit));
    assert_eq!(
        wire::Response::from(Response::OfferSnapshot(response::OfferSnapshot::RejectSender)).value,
        Some(wire::ResponseValue::OfferSnapshot(wire::ResponseOfferSnapshot { result: 5 }))
    );
}

#[test]
fn empty_selector_is_a_missing_payload() {
    assert_eq!(Request::try_from(wire::Request { value: None }), Err(DecodeError::MissingPayload));
    assert_eq!(
        Response::try_from(wire::Response { value: None }),
        Err(DecodeError::MissingPayload)
    );
}

#[test]
fn offer_without_snapshot_is_a_missing_nested_field() {
    let record = wire::RequestOfferSnapshot { snapshot: None, app_hash: Bytes::from_static(b"a") };
    assert_eq!(
        request::OfferSnapshot::try_from(record.clone()),
        Err(DecodeError::MissingNestedField)
    );
    let outer = wire::Request { value: Some(wire::RequestValue::OfferSnapshot(record)) };
    assert_eq!(Request::try_from(outer), Err(DecodeError::MissingNestedField));
}

#[test]
fn offer_with_snapshot_decodes() {
    let record = wire::RequestOfferSnapshot {
        snapshot: Some(snapshot()),
        app_hash: Bytes::from_static(b"a"),
    };
    assert_eq!(
        request::OfferSnapshot::try_from(record),
        Ok(request::OfferSnapshot { snapshot: snapshot(), app_hash: Bytes::from_static(b"a") })
    );
}

#[test]
fn chunk_result_three_is_retry_and_six_is_unknown() {
    assert_eq!(ApplySnapshotChunkResult::try_from(3), Ok(ApplySnapshotChunkResult::Retry));
    assert_eq!(ApplySnapshotChunkResult::try_from(6), Err(DecodeError::UnknownEnumValue(6)));
}

#[test]
fn chunk_result_codes_are_fixed() {
    let results = [
        ApplySnapshotChunkResult::Unknown,
        ApplySnapshotChunkResult::Accept,
        ApplySnapshotChunkResult::Abort,
        ApplySnapshotChunkResult::Retry,
        ApplySnapshotChunkResult::RetrySnapshot,
        ApplySnapshotChunkResult::RejectSnapshot,
    ];
    for (code, result) in results.iter().enumerate() {
        assert_eq!(i32::from(*result), code as i32);
        assert_eq!(ApplySnapshotChunkResult::try_from(code as i32), Ok(*result));
    }
    assert_eq!(ApplySnapshotChunkResult::try_from(-1), Err(DecodeError::UnknownEnumValue(-1)));
    assert_eq!(
        ApplySnapshotChunkResult::try_from(i32::MAX),
        Err(DecodeError::UnknownEnumValue(i32::MAX))
    );
    assert_eq!(
        ApplySnapshotChunkResult::try_from(256 + 3),
        Err(DecodeError::UnknownEnumValue(259))
    );
}

#[test]
fn default_chunk_result_is_unknown() {
    assert_eq!(ApplySnapshotChunkResult::default(), ApplySnapshotChunkResult::Unknown);
    let answer = response::ApplySnapshotChunk::default();
    assert_eq!(answer.result, ApplySnapshotChunkResult::Unknown);
    assert!(answer.refetch_chunks.is_empty());
    assert!(answer.reject_senders.is_empty());
}

#[test]
fn absent_chunk_result_reads_as_unknown() {
    let record = wire::ResponseApplySnapshotChunk {
        result: 0,
        refetch_chunks: vec![],
        reject_senders: vec![],
    };
    assert_eq!(
        response::ApplySnapshotChunk::try_from(record),
        Ok(response::ApplySnapshotChunk::default())
    );
}

#[test]
fn chunk_answer_with_unknown_result_fails_inside_a_response() {
    let record = wire::ResponseApplySnapshotChunk {
        result: 6,
        refetch_chunks: vec![1, 0],
        reject_senders: vec!["peer".to_string()],
    };
    assert_eq!(
        response::ApplySnapshotChunk::try_from(record.clone()),
        Err(DecodeError::UnknownEnumValue(6))
    );
    let outer = wire::Response { value: Some(wire::ResponseValue::ApplySnapshotChunk(record)) };
    assert_eq!(Response::try_from(outer), Err(DecodeError::UnknownEnumValue(6)));
}

#[test]
fn chunk_answer_keeps_the_order_of_its_lists() {
    let record = wire::ResponseApplySnapshotChunk {
        result: 3,
        refetch_chunks: vec![4, 0, 2],
        reject_senders: vec!["b".to_string(), "a".to_string()],
    };
    let answer = response::ApplySnapshotChunk::try_from(record.clone()).unwrap();
    assert_eq!(answer.result, ApplySnapshotChunkResult::Retry);
    assert_eq!(answer.refetch_chunks, vec![4, 0, 2]);
    assert_eq!(answer.reject_senders, vec!["b".to_string(), "a".to_string()]);
    assert_eq!(wire::ResponseApplySnapshotChunk::from(answer), record);
}

#[test]
fn offer_answer_codes_are_fixed() {
    let answers = [
        response::OfferSnapshot::Unknown,
        response::OfferSnapshot::Accept,
        response::OfferSnapshot::Abort,
        response::OfferSnapshot::Reject,
        response::OfferSnapshot::RejectFormat,
        response::OfferSnapshot::RejectSender,
    ];
    for (code, answer) in answers.iter().enumerate() {
        let record = wire::ResponseOfferSnapshot::from(*answer);
        assert_eq!(record.result, code as i32);
        assert_eq!(response::OfferSnapshot::try_from(record), Ok(*answer));
    }
    assert_eq!(
        response::OfferSnapshot::try_from(wire::ResponseOfferSnapshot { result: 6 }),
        Err(DecodeError::UnknownEnumValue(6))
    );
}

#[test]
fn check_kind_codes_are_fixed() {
    assert_eq!(i32::from(request::CheckTxKind::New), 0);
    assert_eq!(i32::from(request::CheckTxKind::Recheck), 1);
    assert_eq!(request::CheckTxKind::try_from(1), Ok(request::CheckTxKind::Recheck));
    assert_eq!(request::CheckTxKind::try_from(2), Err(DecodeError::UnknownEnumValue(2)));
    let record = wire::RequestCheckTx { tx: Bytes::from_static(b"tx"), kind: 7 };
    assert_eq!(request::CheckTx::try_from(record), Err(DecodeError::UnknownEnumValue(7)));
}

#[test]
fn negative_height_is_malformed() {
    let record = wire::RequestQuery {
        data: Bytes::new(),
        path: String::new(),
        height: -1,
        prove: false,
    };
    assert_eq!(request::Query::try_from(record.clone()), Err(DecodeError::Malformed));
    let outer = wire::Request { value: Some(wire::RequestValue::Query(record)) };
    assert_eq!(Request::try_from(outer), Err(DecodeError::Malformed));
    let commit = wire::ResponseCommit { data: Bytes::new(), retain_height: i64::MIN };
    assert_eq!(response::Commit::try_from(commit), Err(DecodeError::Malformed));
}

#[test]
fn init_chain_reports_the_first_failure() {
    let good = wire::RequestInitChain::from(init_chain());
    assert_eq!(request::InitChain::try_from(good.clone()), Ok(init_chain()));

    let mut no_time = good.clone();
    no_time.time = None;
    no_time.initial_height = -1;
    assert_eq!(request::InitChain::try_from(no_time), Err(DecodeError::MissingNestedField));

    let mut no_params = good.clone();
    no_params.consensus_params = None;
    assert_eq!(request::InitChain::try_from(no_params), Err(DecodeError::MissingNestedField));

    let mut bad_height = good;
    bad_height.initial_height = -1;
    assert_eq!(request::InitChain::try_from(bad_height), Err(DecodeError::Malformed));
}

#[test]
fn begin_block_needs_header_and_commit_info() {
    let good = wire::RequestBeginBlock::from(begin_block());
    assert_eq!(good.header, Some(header()));
    assert_eq!(good.last_commit_info, Some(commit_info()));

    let mut no_header = good.clone();
    no_header.header = None;
    assert_eq!(request::BeginBlock::try_from(no_header), Err(DecodeError::MissingNestedField));

    let mut no_info = good.clone();
    no_info.last_commit_info = None;
    assert_eq!(request::BeginBlock::try_from(no_info), Err(DecodeError::MissingNestedField));

    assert_eq!(request::BeginBlock::try_from(good), Ok(begin_block()));
}

#[test]
fn events_keep_their_order() {
    let mut second = event();
    second.kind = "mint".to_string();
    let message = response::BeginBlock { events: vec![event(), second.clone()] };
    let record = wire::ResponseBeginBlock::from(message.clone());
    assert_eq!(record.events, vec![event(), second]);
    assert_eq!(response::BeginBlock::try_from(record), Ok(message));
    assert_eq!(response::BeginBlock::default().events, vec![]);
    assert_eq!(response::Echo::default().message, "");
}
