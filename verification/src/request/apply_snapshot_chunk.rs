//! The snapshot chunk application request.

use vstd::prelude::*;
use vstd::std_specs::convert::{FromSpecImpl, TryFromSpecImpl};
use bytes::Bytes;
use crate::error::DecodeError;
use crate::wire;

verus! {

/// Applies a snapshot chunk.
///
/// The application answers with a result and may ask to fetch chunks again
/// or to ban peers; the engine does neither on its own. When every chunk is
/// accepted the engine asks for `Info` and compares the last block height
/// and the app hash with the values it expects.
#[derive(Clone, Debug, PartialEq, Eq)]
pub struct ApplySnapshotChunk {
    /// The index of the chunk within the snapshot.
    pub index: u32,
    /// The binary chunk contents, as a peer sent them.
    pub chunk: Bytes,
    /// The identifier of the peer that sent the chunk.
    pub sender: String,
}

impl ApplySnapshotChunk {
    /// The wire record of the message.
    pub open spec fn encoded(self) -> wire::RequestApplySnapshotChunk {
        wire::RequestApplySnapshotChunk {
            index: self.index,
            chunk: self.chunk,
            sender: self.sender,
        }
    }

    /// The message that a wire record stands for. Every record stands for one.
    pub open spec fn decoded(record: wire::RequestApplySnapshotChunk) -> Result<
        ApplySnapshotChunk,
        DecodeError,
    > {
        Ok(ApplySnapshotChunk {
            index: record.index,
            chunk: record.chunk,
            sender: record.sender,
        })
    }

    /// A message survives the wire: decoding the record of a message gives the
    /// message back.
    pub proof fn lemma_round_trip(self)
        ensures
            ApplySnapshotChunk::decoded(self.encoded()) == Ok::<ApplySnapshotChunk, DecodeError>(
                self,
            ),
    {
    }
}

impl From<ApplySnapshotChunk> for wire::RequestApplySnapshotChunk {
    /// Encodes: the wire record of the message.
    fn from(apply_snapshot_chunk: ApplySnapshotChunk) -> (record: Self)
        ensures
            record == apply_snapshot_chunk.encoded(),
            ApplySnapshotChunk::decoded(record) == Ok::<ApplySnapshotChunk, DecodeError>(
                apply_snapshot_chunk,
            ),
    {
        wire::RequestApplySnapshotChunk {
            index: apply_snapshot_chunk.index,
            chunk: apply_snapshot_chunk.chunk,
            sender: apply_snapshot_chunk.sender,
        }
    }
}

impl FromSpecImpl<ApplySnapshotChunk> for wire::RequestApplySnapshotChunk {
    open spec fn obeys_from_spec() -> bool {
        true
    }

    open spec fn from_spec(apply_snapshot_chunk: ApplySnapshotChunk) -> Self {
        apply_snapshot_chunk.encoded()
    }
}

impl TryFrom<wire::RequestApplySnapshotChunk> for ApplySnapshotChunk {
    type Error = DecodeError;

    /// Decodes: the message that the record stands for, or the first
    /// reason why it stands for none.
    fn try_from(record: wire::RequestApplySnapshotChunk) -> (decoded: Result<Self, DecodeError>)
        ensures
            decoded == ApplySnapshotChunk::decoded(record),
            decoded is Ok,
    {
        Ok(ApplySnapshotChunk {
            index: record.index,
            chunk: record.chunk,
            sender: record.sender,
        })
    }
}

impl TryFromSpecImpl<wire::RequestApplySnapshotChunk> for ApplySnapshotChunk {
    open spec fn obeys_try_from_spec() -> bool {
        true
    }

    open spec fn try_from_spec(record: wire::RequestApplySnapshotChunk) -> Result<
        Self,
        DecodeError,
    > {
        ApplySnapshotChunk::decoded(record)
    }
}

} // verus!
