//! The snapshot chunk load response.

use vstd::prelude::*;
use vstd::std_specs::convert::{FromSpecImpl, TryFromSpecImpl};
use bytes::Bytes;
use crate::error::DecodeError;
use crate::wire;

verus! {

/// Returns a snapshot chunk from the application.
#[derive(Clone, Debug, PartialEq, Eq)]
pub struct LoadSnapshotChunk {
    /// The binary chunk contents, in an arbitrary format.
    ///
    /// Chunk messages cannot be larger than 16 MB including metadata, so
    /// 10 MB is a good starting point.
    pub chunk: Bytes,
}

impl LoadSnapshotChunk {
    /// The wire record of the message.
    pub open spec fn encoded(self) -> wire::ResponseLoadSnapshotChunk {
        wire::ResponseLoadSnapshotChunk { chunk: self.chunk }
    }

    /// The message that a wire record stands for. Every record stands for one.
    pub open spec fn decoded(record: wire::ResponseLoadSnapshotChunk) -> Result<
        LoadSnapshotChunk,
        DecodeError,
    > {
        Ok(LoadSnapshotChunk { chunk: record.chunk })
    }

    /// A message survives the wire: decoding the record of a message gives the
    /// message back.
    pub proof fn lemma_round_trip(self)
        ensures
            LoadSnapshotChunk::decoded(self.encoded()) == Ok::<LoadSnapshotChunk, DecodeError>(
                self,
            ),
    {
    }
}

impl From<LoadSnapshotChunk> for wire::ResponseLoadSnapshotChunk {
    /// Encodes: the wire record of the message.
    fn from(load_snapshot_chunk: LoadSnapshotChunk) -> (record: Self)
        ensures
            record == load_snapshot_chunk.encoded(),
            LoadSnapshotChunk::decoded(record) == Ok::<LoadSnapshotChunk, DecodeError>(
                load_snapshot_chunk,
            ),
    {
        wire::ResponseLoadSnapshotChunk { chunk: load_snapshot_chunk.chunk }
    }
}

impl FromSpecImpl<LoadSnapshotChunk> for wire::ResponseLoadSnapshotChunk {
    open spec fn obeys_from_spec() -> bool {
        true
    }

    open spec fn from_spec(load_snapshot_chunk: LoadSnapshotChunk) -> Self {
        load_snapshot_chunk.encoded()
    }
}

impl TryFrom<wire::ResponseLoadSnapshotChunk> for LoadSnapshotChunk {
    type Error = DecodeError;

    /// Decodes: the message that the record stands for, or the first
    /// reason why it stands for none.
    fn try_from(record: wire::ResponseLoadSnapshotChunk) -> (decoded: Result<Self, DecodeError>)
        ensures
            decoded == LoadSnapshotChunk::decoded(record),
            decoded is Ok,
    {
        Ok(LoadSnapshotChunk { chunk: record.chunk })
    }
}

impl TryFromSpecImpl<wire::ResponseLoadSnapshotChunk> for LoadSnapshotChunk {
    open spec fn obeys_try_from_spec() -> bool {
        true
    }

    open spec fn try_from_spec(record: wire::ResponseLoadSnapshotChunk) -> Result<
        Self,
        DecodeError,
    > {
        LoadSnapshotChunk::decoded(record)
    }
}

} // verus!
