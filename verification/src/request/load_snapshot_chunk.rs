//! The snapshot chunk load request.

use vstd::prelude::*;
use vstd::std_specs::convert::{FromSpecImpl, TryFromSpecImpl};
use crate::error::DecodeError;
use crate::wire;

verus! {

/// Used during state sync to retrieve snapshot chunks from peers.
#[derive(Clone, Debug, PartialEq, Eq)]
pub struct LoadSnapshotChunk {
    /// The height of the snapshot the chunk belongs to.
    pub height: u64,
    /// The application-specific format of that snapshot.
    pub format: u32,
    /// The index of the chunk within the snapshot.
    pub chunk: u32,
}

impl LoadSnapshotChunk {
    /// The wire record of the message.
    pub open spec fn encoded(self) -> wire::RequestLoadSnapshotChunk {
        wire::RequestLoadSnapshotChunk {
            height: self.height,
            format: self.format,
            chunk: self.chunk,
        }
    }

    /// The message that a wire record stands for. Every record stands for one.
    pub open spec fn decoded(record: wire::RequestLoadSnapshotChunk) -> Result<
        LoadSnapshotChunk,
        DecodeError,
    > {
        Ok(LoadSnapshotChunk {
            height: record.height,
            format: record.format,
            chunk: record.chunk,
        })
    }

    /// A message survives the wire: decoding the record of a message gives the
    /// message back.
    pub proof fn lemma_round_trip(self)
        ensures
            LoadSnapshotChunk::decoded(self.encoded()) == Ok::<LoadSnapshotChunk, DecodeError>(
                self,
            ),
    {
    }
}

impl From<LoadSnapshotChunk> for wire::RequestLoadSnapshotChunk {
    /// Encodes: the wire record of the message.
    fn from(load_snapshot_chunk: LoadSnapshotChunk) -> (record: Self)
        ensures
            record == load_snapshot_chunk.encoded(),
            LoadSnapshotChunk::decoded(record) == Ok::<LoadSnapshotChunk, DecodeError>(
                load_snapshot_chunk,
            ),
    {
        wire::RequestLoadSnapshotChunk {
            height: load_snapshot_chunk.height,
            format: load_snapshot_chunk.format,
            chunk: load_snapshot_chunk.chunk,
        }
    }
}

impl FromSpecImpl<LoadSnapshotChunk> for wire::RequestLoadSnapshotChunk {
    open spec fn obeys_from_spec() -> bool {
        true
    }

    open spec fn from_spec(load_snapshot_chunk: LoadSnapshotChunk) -> Self {
        load_snapshot_chunk.encoded()
    }
}

impl TryFrom<wire::RequestLoadSnapshotChunk> for LoadSnapshotChunk {
    type Error = DecodeError;

    /// Decodes: the message that the record stands for, or the first
    /// reason why it stands for none.
    fn try_from(record: wire::RequestLoadSnapshotChunk) -> (decoded: Result<Self, DecodeError>)
        ensures
            decoded == LoadSnapshotChunk::decoded(record),
            decoded is Ok,
    {
        Ok(LoadSnapshotChunk {
            height: record.height,
            format: record.format,
            chunk: record.chunk,
        })
    }
}

impl TryFromSpecImpl<wire::RequestLoadSnapshotChunk> for LoadSnapshotChunk {
    open spec fn obeys_try_from_spec() -> bool {
        true
    }

    open spec fn try_from_spec(record: wire::RequestLoadSnapshotChunk) -> Result<
        Self,
        DecodeError,
    > {
        LoadSnapshotChunk::decoded(record)
    }
}

} // verus!
