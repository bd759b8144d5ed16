//! Records that messages carry.
//!
//! The snapshot descriptor and the event records belong to this interface.
//! The remaining records describe blocks, validators and consensus
//! parameters; they belong to other layers, which check them. Here all of
//! them are plain data: the codec moves them between a message and its wire
//! record without looking inside.

use vstd::prelude::*;
use bytes::Bytes;
use crate::buffer::contents;

verus! {

/// A point in time: seconds and nanoseconds since the Unix epoch.
#[derive(Clone, Copy, Debug, PartialEq, Eq, Structural)]
pub struct Timestamp {
    /// Seconds since the epoch. Negative before it.
    pub seconds: i64,
    /// Nanoseconds within the second.
    pub nanos: i32,
}

/// A span of time in seconds and nanoseconds.
#[derive(Clone, Copy, Debug, PartialEq, Eq, Structural)]
pub struct Duration {
    /// Whole seconds of the span.
    pub seconds: i64,
    /// Nanoseconds beside the whole seconds.
    pub nanos: i32,
}

/// Describes a state-sync snapshot offered for restoration.
///
/// The application chooses the format and the content; the interface only
/// carries the descriptor. Nothing in it is verified: a peer may have made
/// it up.
#[derive(Debug, PartialEq, Eq)]
pub struct Snapshot {
    /// The height at which the snapshot was taken.
    pub height: u64,
    /// The application-specific snapshot format.
    pub format: u32,
    /// The number of chunks in the snapshot.
    pub chunks: u32,
    /// An arbitrary snapshot hash, equal only for identical snapshots.
    pub hash: Bytes,
    /// Arbitrary application metadata, for example chunk hashes.
    pub metadata: Bytes,
}

impl Snapshot {
    /// Whether two descriptors say the same: the same numbers, and buffers
    /// of the same bytes.
    pub open spec fn same_as(self, other: Snapshot) -> bool {
        &&& self.height == other.height
        &&& self.format == other.format
        &&& self.chunks == other.chunks
        &&& contents(self.hash) == contents(other.hash)
        &&& contents(self.metadata) == contents(other.metadata)
    }
}

impl Clone for Snapshot {
    /// A copy of the descriptor, to offer a snapshot that a peer listed.
    fn clone(&self) -> (copy: Snapshot)
        ensures
            copy.same_as(*self),
    {
        Snapshot {
            height: self.height,
            format: self.format,
            chunks: self.chunks,
            hash: self.hash.clone(),
            metadata: self.metadata.clone(),
        }
    }
}

/// A key-value pair attached to an event.
#[derive(Clone, Debug, PartialEq, Eq)]
pub struct EventAttribute {
    /// The name of the attribute.
    pub key: String,
    /// The value of the attribute.
    pub value: String,
    /// Whether the engine should index the attribute.
    pub index: bool,
}

/// An event that occurred while the application processed a request.
#[derive(Clone, Debug, PartialEq, Eq)]
pub struct Event {
    /// The kind of event.
    pub kind: String,
    /// The attributes of the event, in order.
    pub attributes: Vec<EventAttribute>,
}

/// Limits on the size of a block.
#[derive(Clone, Copy, Debug, PartialEq, Eq, Structural)]
pub struct BlockParams {
    /// Maximum number of bytes in a block.
    pub max_bytes: i64,
    /// Maximum amount of gas which can be spent on a block; -1 for no limit.
    pub max_gas: i64,
}

/// Limits on the age and size of evidence.
#[derive(Clone, Debug, PartialEq, Eq)]
pub struct EvidenceParams {
    /// How many blocks old evidence may be.
    pub max_age_num_blocks: i64,
    /// How long ago evidence may have been created.
    pub max_age_duration: Option<Duration>,
    /// Maximum number of bytes of evidence in a block.
    pub max_bytes: i64,
}

/// The key types that validators may use.
#[derive(Clone, Debug, PartialEq, Eq)]
pub struct ValidatorParams {
    /// The names of the accepted key types.
    pub pub_key_types: Vec<String>,
}

/// The version of the application.
#[derive(Clone, Copy, Debug, PartialEq, Eq, Structural)]
pub struct VersionParams {
    /// The application protocol version.
    pub app_version: u64,
}

/// The parameters that all nodes of a chain agree on.
#[derive(Clone, Debug, PartialEq, Eq)]
pub struct ConsensusParams {
    /// Limits on blocks.
    pub block: Option<BlockParams>,
    /// Limits on evidence.
    pub evidence: Option<EvidenceParams>,
    /// Rules for validators.
    pub validator: Option<ValidatorParams>,
    /// The application version.
    pub version: Option<VersionParams>,
}

/// The bytes of a public key, tagged with its signature scheme.
#[derive(Clone, Debug, PartialEq, Eq)]
pub enum PublicKeySum {
    /// An Ed25519 key.
    Ed25519(Vec<u8>),
    /// A Secp256k1 key.
    Secp256k1(Vec<u8>),
    /// An Sr25519 key.
    Sr25519(Vec<u8>),
}

/// A public key.
#[derive(Clone, Debug, PartialEq, Eq)]
pub struct PublicKey {
    /// The key, or nothing where the wire named no scheme.
    pub sum: Option<PublicKeySum>,
}

/// A change to the validator set: the new voting power of a key.
#[derive(Clone, Debug, PartialEq, Eq)]
pub struct ValidatorUpdate {
    /// The key of the validator.
    pub pub_key: Option<PublicKey>,
    /// Its new voting power. Zero removes the validator.
    pub power: i64,
}

/// A validator, by address.
#[derive(Clone, Debug, PartialEq, Eq)]
pub struct Validator {
    /// The address of the validator: the first 20 bytes of the hash of its key.
    pub address: Bytes,
    /// The voting power of the validator.
    pub power: i64,
}

/// Whether a validator signed the last block.
#[derive(Clone, Debug, PartialEq, Eq)]
pub struct VoteInfo {
    /// The validator.
    pub validator: Option<Validator>,
    /// Whether it signed the last block.
    pub signed_last_block: bool,
}

/// The votes on the last block.
#[derive(Clone, Debug, PartialEq, Eq)]
pub struct LastCommitInfo {
    /// The round in which the block was committed.
    pub round: i32,
    /// The validators of the last block, with their votes.
    pub votes: Vec<VoteInfo>,
}

/// Evidence of a validator's misbehaviour.
#[derive(Clone, Debug, PartialEq, Eq)]
pub struct Evidence {
    /// The kind of misbehaviour, as the wire numbers it.
    pub kind: i32,
    /// The validator that misbehaved.
    pub validator: Option<Validator>,
    /// The height at which it did.
    pub height: i64,
    /// The time of the block at that height.
    pub time: Option<Timestamp>,
    /// The total voting power of the validator set at that height.
    pub total_voting_power: i64,
}

/// The versions of the block and application protocols.
#[derive(Clone, Copy, Debug, PartialEq, Eq, Structural)]
pub struct Version {
    /// The version of the block protocol.
    pub block: u64,
    /// The version of the application protocol.
    pub app: u64,
}

/// The header of a block's part set.
#[derive(Clone, Debug, PartialEq, Eq)]
pub struct PartSetHeader {
    /// The number of parts.
    pub total: u32,
    /// The Merkle root of the parts.
    pub hash: Vec<u8>,
}

/// Identifies a block.
#[derive(Clone, Debug, PartialEq, Eq)]
pub struct BlockId {
    /// The hash of the block header.
    pub hash: Vec<u8>,
    /// The header of the parts that the block was sent in.
    pub part_set_header: Option<PartSetHeader>,
}

/// A block header.
#[derive(Clone, Debug, PartialEq, Eq)]
pub struct Header {
    /// The protocol versions.
    pub version: Option<Version>,
    /// The identifier of the chain.
    pub chain_id: String,
    /// The height of the block.
    pub height: i64,
    /// The time of the block.
    pub time: Option<Timestamp>,
    /// The block before this one.
    pub last_block_id: Option<BlockId>,
    /// The hash of the commit of the last block.
    pub last_commit_hash: Vec<u8>,
    /// The hash of the transactions.
    pub data_hash: Vec<u8>,
    /// The hash of the validators of this block.
    pub validators_hash: Vec<u8>,
    /// The hash of the validators of the next block.
    pub next_validators_hash: Vec<u8>,
    /// The hash of the consensus parameters.
    pub consensus_hash: Vec<u8>,
    /// The state of the application after the last block.
    pub app_hash: Vec<u8>,
    /// The hash of the results of the last block.
    pub last_results_hash: Vec<u8>,
    /// The hash of the evidence in the block.
    pub evidence_hash: Vec<u8>,
    /// The address of the validator that proposed the block.
    pub proposer_address: Vec<u8>,
}

/// One step of a Merkle proof.
#[derive(Clone, Debug, PartialEq, Eq)]
pub struct ProofOp {
    /// The kind of step.
    pub kind: String,
    /// The key that the step speaks of.
    pub key: Vec<u8>,
    /// The encoded step.
    pub data: Vec<u8>,
}

/// A Merkle proof: its steps, in order.
#[derive(Clone, Debug, PartialEq, Eq)]
pub struct ProofOps {
    /// The steps.
    pub ops: Vec<ProofOp>,
}

} // verus!
