//! Wire records.
//!
//! A wire record has the shape in which a message travels: one record per
//! protobuf message of the interface, field for field. A record promises
//! less than the message it stands for. Its selector may be empty, a nested
//! record may be absent, an enumerated field is a bare integer and a height
//! is a signed integer. Turning a record into a message checks all of that;
//! turning a message into its record cannot fail.
//!
//! Laying a record out as bytes, and reading it back, is the work of a
//! protobuf library and happens outside this crate.

use vstd::prelude::*;
use bytes::Bytes;
use crate::types::{
    ConsensusParams, Event, Evidence, Header, LastCommitInfo, ProofOps, Snapshot, Timestamp,
    ValidatorUpdate,
};

verus! {

/// The wire record of [`request::Echo`](crate::request::Echo).
#[derive(Clone, Debug, PartialEq, Eq)]
pub struct RequestEcho {
    pub message: String,
}

/// The wire record of [`request::Info`](crate::request::Info).
#[derive(Clone, Debug, PartialEq, Eq)]
pub struct RequestInfo {
    pub version: String,
    pub block_version: u64,
    pub p2p_version: u64,
    pub abci_version: String,
}

/// The wire record of [`request::InitChain`](crate::request::InitChain).
#[derive(Clone, Debug, PartialEq, Eq)]
pub struct RequestInitChain {
    pub time: Option<Timestamp>,
    pub chain_id: String,
    pub consensus_params: Option<ConsensusParams>,
    pub validators: Vec<ValidatorUpdate>,
    pub app_state_bytes: Bytes,
    pub initial_height: i64,
}

/// The wire record of [`request::Query`](crate::request::Query).
#[derive(Clone, Debug, PartialEq, Eq)]
pub struct RequestQuery {
    pub data: Bytes,
    pub path: String,
    pub height: i64,
    pub prove: bool,
}

/// The wire record of [`request::BeginBlock`](crate::request::BeginBlock).
#[derive(Clone, Debug, PartialEq, Eq)]
pub struct RequestBeginBlock {
    pub hash: Bytes,
    pub header: Option<Header>,
    pub last_commit_info: Option<LastCommitInfo>,
    pub byzantine_validators: Vec<Evidence>,
}

/// The wire record of [`request::CheckTx`](crate::request::CheckTx).
#[derive(Clone, Debug, PartialEq, Eq)]
pub struct RequestCheckTx {
    pub tx: Bytes,
    /// The kind of check: 0 for a new transaction, 1 for a recheck.
    pub kind: i32,
}

/// The wire record of [`request::DeliverTx`](crate::request::DeliverTx).
#[derive(Clone, Debug, PartialEq, Eq)]
pub struct RequestDeliverTx {
    pub tx: Bytes,
}

/// The wire record of [`request::EndBlock`](crate::request::EndBlock).
#[derive(Clone, Copy, Debug, PartialEq, Eq, Structural)]
pub struct RequestEndBlock {
    pub height: i64,
}

/// The wire record of [`request::OfferSnapshot`](crate::request::OfferSnapshot).
#[derive(Clone, Debug, PartialEq, Eq)]
pub struct RequestOfferSnapshot {
    pub snapshot: Option<Snapshot>,
    pub app_hash: Bytes,
}

/// The wire record of [`request::LoadSnapshotChunk`](crate::request::LoadSnapshotChunk).
#[derive(Clone, Copy, Debug, PartialEq, Eq, Structural)]
pub struct RequestLoadSnapshotChunk {
    pub height: u64,
    pub format: u32,
    pub chunk: u32,
}

/// The wire record of [`request::ApplySnapshotChunk`](crate::request::ApplySnapshotChunk).
#[derive(Clone, Debug, PartialEq, Eq)]
pub struct RequestApplySnapshotChunk {
    pub index: u32,
    pub chunk: Bytes,
    pub sender: String,
}

/// The payload of a request record, under its selector.
#[derive(Clone, Debug, PartialEq, Eq)]
pub enum RequestValue {
    Echo(RequestEcho),
    Flush,
    Info(RequestInfo),
    InitChain(RequestInitChain),
    Query(RequestQuery),
    BeginBlock(RequestBeginBlock),
    CheckTx(RequestCheckTx),
    DeliverTx(RequestDeliverTx),
    EndBlock(RequestEndBlock),
    Commit,
    ListSnapshots,
    OfferSnapshot(RequestOfferSnapshot),
    LoadSnapshotChunk(RequestLoadSnapshotChunk),
    ApplySnapshotChunk(RequestApplySnapshotChunk),
}

/// The wire record of a request: a selector that holds one payload, or none.
#[derive(Clone, Debug, PartialEq, Eq)]
pub struct Request {
    pub value: Option<RequestValue>,
}

/// The wire record of [`response::Exception`](crate::response::Exception).
#[derive(Clone, Debug, PartialEq, Eq)]
pub struct ResponseException {
    pub error: String,
}

/// The wire record of [`response::Echo`](crate::response::Echo).
#[derive(Clone, Debug, PartialEq, Eq)]
pub struct ResponseEcho {
    pub message: String,
}

/// The wire record of [`response::Info`](crate::response::Info).
#[derive(Clone, Debug, PartialEq, Eq)]
pub struct ResponseInfo {
    pub data: String,
    pub version: String,
    pub app_version: u64,
    pub last_block_height: i64,
    pub last_block_app_hash: Bytes,
}

/// The wire record of [`response::InitChain`](crate::response::InitChain).
#[derive(Clone, Debug, PartialEq, Eq)]
pub struct ResponseInitChain {
    pub consensus_params: Option<ConsensusParams>,
    pub validators: Vec<ValidatorUpdate>,
    pub app_hash: Bytes,
}

/// The wire record of [`response::Query`](crate::response::Query).
#[derive(Clone, Debug, PartialEq, Eq)]
pub struct ResponseQuery {
    pub code: u32,
    pub log: String,
    pub info: String,
    pub index: i64,
    pub key: Bytes,
    pub value: Bytes,
    pub proof_ops: Option<ProofOps>,
    pub height: i64,
    pub codespace: String,
}

/// The wire record of [`response::BeginBlock`](crate::response::BeginBlock).
#[derive(Clone, Debug, PartialEq, Eq)]
pub struct ResponseBeginBlock {
    pub events: Vec<Event>,
}

/// The wire record of [`response::CheckTx`](crate::response::CheckTx).
#[derive(Clone, Debug, PartialEq, Eq)]
pub struct ResponseCheckTx {
    pub code: u32,
    pub data: Bytes,
    pub log: String,
    pub info: String,
    pub gas_wanted: i64,
    pub gas_used: i64,
    pub events: Vec<Event>,
    pub codespace: String,
    pub sender: String,
    pub priority: i64,
    pub mempool_error: String,
}

/// The wire record of [`response::DeliverTx`](crate::response::DeliverTx).
#[derive(Clone, Debug, PartialEq, Eq)]
pub struct ResponseDeliverTx {
    pub code: u32,
    pub data: Bytes,
    pub log: String,
    pub info: String,
    pub gas_wanted: i64,
    pub gas_used: i64,
    pub events: Vec<Event>,
    pub codespace: String,
}

/// The wire record of [`response::EndBlock`](crate::response::EndBlock).
#[derive(Clone, Debug, PartialEq, Eq)]
pub struct ResponseEndBlock {
    pub validator_updates: Vec<ValidatorUpdate>,
    pub consensus_param_updates: Option<ConsensusParams>,
    pub events: Vec<Event>,
}

/// The wire record of [`response::Commit`](crate::response::Commit).
#[derive(Clone, Debug, PartialEq, Eq)]
pub struct ResponseCommit {
    pub data: Bytes,
    pub retain_height: i64,
}

/// The wire record of [`response::ListSnapshots`](crate::response::ListSnapshots).
#[derive(Clone, Debug, PartialEq, Eq)]
pub struct ResponseListSnapshots {
    pub snapshots: Vec<Snapshot>,
}

/// The wire record of [`response::OfferSnapshot`](crate::response::OfferSnapshot).
#[derive(Clone, Copy, Debug, PartialEq, Eq, Structural)]
pub struct ResponseOfferSnapshot {
    /// The answer to the offer, 0 to 5.
    pub result: i32,
}

/// The wire record of [`response::LoadSnapshotChunk`](crate::response::LoadSnapshotChunk).
#[derive(Clone, Debug, PartialEq, Eq)]
pub struct ResponseLoadSnapshotChunk {
    pub chunk: Bytes,
}

/// The wire record of [`response::ApplySnapshotChunk`](crate::response::ApplySnapshotChunk).
#[derive(Clone, Debug, PartialEq, Eq)]
pub struct ResponseApplySnapshotChunk {
    /// The result of applying the chunk, 0 to 5. A field that was absent
    /// from the bytes reads as 0.
    pub result: i32,
    pub refetch_chunks: Vec<u32>,
    pub reject_senders: Vec<String>,
}

/// The payload of a response record, under its selector.
#[derive(Clone, Debug, PartialEq, Eq)]
pub enum ResponseValue {
    Exception(ResponseException),
    Echo(ResponseEcho),
    Flush,
    Info(ResponseInfo),
    InitChain(ResponseInitChain),
    Query(ResponseQuery),
    BeginBlock(ResponseBeginBlock),
    CheckTx(ResponseCheckTx),
    DeliverTx(ResponseDeliverTx),
    EndBlock(ResponseEndBlock),
    Commit(ResponseCommit),
    ListSnapshots(ResponseListSnapshots),
    OfferSnapshot(ResponseOfferSnapshot),
    LoadSnapshotChunk(ResponseLoadSnapshotChunk),
    ApplySnapshotChunk(ResponseApplySnapshotChunk),
}

/// The wire record of a response: a selector that holds one payload, or none.
#[derive(Clone, Debug, PartialEq, Eq)]
pub struct Response {
    pub value: Option<ResponseValue>,
}

} // verus!
