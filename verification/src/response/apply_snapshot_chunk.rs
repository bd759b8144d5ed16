//! The snapshot chunk application response.

use vstd::prelude::*;
use vstd::std_specs::convert::{FromSpecImpl, TryFromSpecImpl};
use crate::error::DecodeError;
use crate::wire;

verus! {

/// The result of applying a snapshot chunk.
///
/// The integers that stand for the results on the wire are part of the
/// protocol and never change.
#[derive(Clone, Copy, Debug, PartialEq, Eq, Hash, Structural)]
pub enum ApplySnapshotChunkResult {
    /// Unknown result, abort all snapshot restoration. An application never
    /// answers this on purpose; it is what an absent result reads as.
    Unknown,
    /// The chunk was accepted.
    Accept,
    /// Abort snapshot restoration, and don't try any other snapshots.
    Abort,
    /// Reapply this chunk, together with `refetch_chunks` and
    /// `reject_senders` as given.
    Retry,
    /// Restart this snapshot from a new offer, reusing chunks unless
    /// instructed otherwise.
    RetrySnapshot,
    /// Reject this snapshot, try a different one.
    RejectSnapshot,
}

impl ApplySnapshotChunkResult {
    /// The integer that stands for the result on the wire.
    pub open spec fn encoded(self) -> i32 {
        match self {
            ApplySnapshotChunkResult::Unknown => 0,
            ApplySnapshotChunkResult::Accept => 1,
            ApplySnapshotChunkResult::Abort => 2,
            ApplySnapshotChunkResult::Retry => 3,
            ApplySnapshotChunkResult::RetrySnapshot => 4,
            ApplySnapshotChunkResult::RejectSnapshot => 5,
        }
    }

    /// The result that a wire integer stands for: none outside 0 to 5.
    pub open spec fn decoded(code: i32) -> Result<ApplySnapshotChunkResult, DecodeError> {
        if code == 0 {
            Ok(ApplySnapshotChunkResult::Unknown)
        } else if code == 1 {
            Ok(ApplySnapshotChunkResult::Accept)
        } else if code == 2 {
            Ok(ApplySnapshotChunkResult::Abort)
        } else if code == 3 {
            Ok(ApplySnapshotChunkResult::Retry)
        } else if code == 4 {
            Ok(ApplySnapshotChunkResult::RetrySnapshot)
        } else if code == 5 {
            Ok(ApplySnapshotChunkResult::RejectSnapshot)
        } else {
            Err(DecodeError::UnknownEnumValue(code))
        }
    }

    /// Decoding inverts encoding, and an integer decodes exactly when it lies
    /// between 0 and 5: any other is reported as it came, never folded onto
    /// a known result.
    pub proof fn lemma_codes(self, code: i32)
        ensures
            0 <= self.encoded() <= 5,
            ApplySnapshotChunkResult::decoded(self.encoded()) == Ok::<
                ApplySnapshotChunkResult,
                DecodeError,
            >(self),
            ApplySnapshotChunkResult::decoded(code) is Ok <==> 0 <= code <= 5,
            ApplySnapshotChunkResult::decoded(code) matches Ok(result) ==> result.encoded() == code,
            !(0 <= code <= 5) ==> ApplySnapshotChunkResult::decoded(code) == Err::<
                ApplySnapshotChunkResult,
                DecodeError,
            >(DecodeError::UnknownEnumValue(code)),
    {
    }
}

impl Default for ApplySnapshotChunkResult {
    fn default() -> (result: Self)
        ensures
            result == ApplySnapshotChunkResult::Unknown,
    {
        ApplySnapshotChunkResult::Unknown
    }
}

impl From<ApplySnapshotChunkResult> for i32 {
    /// Encodes: the integer that travels on the wire.
    fn from(result: ApplySnapshotChunkResult) -> (code: i32)
        ensures
            code == result.encoded(),
    {
        match result {
            ApplySnapshotChunkResult::Unknown => 0,
            ApplySnapshotChunkResult::Accept => 1,
            ApplySnapshotChunkResult::Abort => 2,
            ApplySnapshotChunkResult::Retry => 3,
            ApplySnapshotChunkResult::RetrySnapshot => 4,
            ApplySnapshotChunkResult::RejectSnapshot => 5,
        }
    }
}

impl FromSpecImpl<ApplySnapshotChunkResult> for i32 {
    open spec fn obeys_from_spec() -> bool {
        true
    }

    open spec fn from_spec(result: ApplySnapshotChunkResult) -> i32 {
        result.encoded()
    }
}

impl TryFrom<i32> for ApplySnapshotChunkResult {
    type Error = DecodeError;

    /// Decodes: the value that a wire integer stands for, if any.
    fn try_from(code: i32) -> (decoded: Result<Self, DecodeError>)
        ensures
            decoded == ApplySnapshotChunkResult::decoded(code),
            decoded is Ok <==> 0 <= code <= 5,
    {
        match code {
            0 => Ok(ApplySnapshotChunkResult::Unknown),
            1 => Ok(ApplySnapshotChunkResult::Accept),
            2 => Ok(ApplySnapshotChunkResult::Abort),
            3 => Ok(ApplySnapshotChunkResult::Retry),
            4 => Ok(ApplySnapshotChunkResult::RetrySnapshot),
            5 => Ok(ApplySnapshotChunkResult::RejectSnapshot),
            _ => Err(DecodeError::UnknownEnumValue(code)),
        }
    }
}

impl TryFromSpecImpl<i32> for ApplySnapshotChunkResult {
    open spec fn obeys_try_from_spec() -> bool {
        true
    }

    open spec fn try_from_spec(code: i32) -> Result<Self, DecodeError> {
        ApplySnapshotChunkResult::decoded(code)
    }
}

/// Returns the result of applying a snapshot chunk and associated data.
///
/// The application can choose to refetch chunks and to ban peers. The
/// engine does neither unless the application tells it to.
#[derive(Clone, Debug, PartialEq, Eq, Default)]
pub struct ApplySnapshotChunk {
    /// The result of applying the snapshot chunk.
    pub result: ApplySnapshotChunkResult,
    /// Refetch and reapply the given chunks, regardless of `result`.
    ///
    /// Only the listed chunks will be refetched, and reapplied in the order
    /// of the list.
    pub refetch_chunks: Vec<u32>,
    /// Reject the given senders, regardless of `result`.
    ///
    /// Chunks that were applied stay applied unless `refetch_chunks` names
    /// them. Queued chunks from these senders are discarded, and what they
    /// send or offer from now on is refused.
    pub reject_senders: Vec<String>,
}

impl ApplySnapshotChunk {
    /// The wire record of the message.
    pub open spec fn encoded(self) -> wire::ResponseApplySnapshotChunk {
        wire::ResponseApplySnapshotChunk {
            result: self.result.encoded(),
            refetch_chunks: self.refetch_chunks,
            reject_senders: self.reject_senders,
        }
    }

    /// The message that a wire record stands for. A record whose result lies
    /// outside 0 to 5 holds an unknown enumeration value.
    pub open spec fn decoded(record: wire::ResponseApplySnapshotChunk) -> Result<
        ApplySnapshotChunk,
        DecodeError,
    > {
        if let Err(error) = ApplySnapshotChunkResult::decoded(record.result) {
            Err(error)
        } else {
            Ok(ApplySnapshotChunk {
                result: ApplySnapshotChunkResult::decoded(record.result).unwrap(),
                refetch_chunks: record.refetch_chunks,
                reject_senders: record.reject_senders,
            })
        }
    }

    /// A message survives the wire: decoding the record of a message gives the
    /// message back.
    pub proof fn lemma_round_trip(self)
        ensures
            ApplySnapshotChunk::decoded(self.encoded()) == Ok::<ApplySnapshotChunk, DecodeError>(
                self,
            ),
    {
    }
}

impl From<ApplySnapshotChunk> for wire::ResponseApplySnapshotChunk {
    /// Encodes: the wire record of the message.
    fn from(apply_snapshot_chunk: ApplySnapshotChunk) -> (record: Self)
        ensures
            record == apply_snapshot_chunk.encoded(),
            ApplySnapshotChunk::decoded(record) == Ok::<ApplySnapshotChunk, DecodeError>(
                apply_snapshot_chunk,
            ),
    {
        wire::ResponseApplySnapshotChunk {
            result: i32::from(apply_snapshot_chunk.result),
            refetch_chunks: apply_snapshot_chunk.refetch_chunks,
            reject_senders: apply_snapshot_chunk.reject_senders,
        }
    }
}

impl FromSpecImpl<ApplySnapshotChunk> for wire::ResponseApplySnapshotChunk {
    open spec fn obeys_from_spec() -> bool {
        true
    }

    open spec fn from_spec(apply_snapshot_chunk: ApplySnapshotChunk) -> Self {
        apply_snapshot_chunk.encoded()
    }
}

impl TryFrom<wire::ResponseApplySnapshotChunk> for ApplySnapshotChunk {
    type Error = DecodeError;

    /// Decodes: the message that the record stands for, or the first
    /// reason why it stands for none.
    fn try_from(record: wire::ResponseApplySnapshotChunk) -> (decoded: Result<Self, DecodeError>)
        ensures
            decoded == ApplySnapshotChunk::decoded(record),
            decoded is Ok <==> 0 <= record.result <= 5,
    {
        let result = match ApplySnapshotChunkResult::try_from(record.result) {
            Ok(result) => result,
            Err(error) => return Err(error),
        };
        Ok(ApplySnapshotChunk {
            result,
            refetch_chunks: record.refetch_chunks,
            reject_senders: record.reject_senders,
        })
    }
}

impl TryFromSpecImpl<wire::ResponseApplySnapshotChunk> for ApplySnapshotChunk {
    open spec fn obeys_try_from_spec() -> bool {
        true
    }

    open spec fn try_from_spec(record: wire::ResponseApplySnapshotChunk) -> Result<
        Self,
        DecodeError,
    > {
        ApplySnapshotChunk::decoded(record)
    }
}

} // verus!
