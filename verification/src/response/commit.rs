//! The commit response.

use vstd::prelude::*;
use vstd::std_specs::convert::{FromSpecImpl, TryFromSpecImpl};
use bytes::Bytes;
use crate::block::Height;
use crate::error::DecodeError;
use crate::wire;

verus! {

/// Returns the result of persisting the application state.
#[derive(Clone, Debug, PartialEq, Eq)]
pub struct Commit {
    /// The Merkle root hash of the application state.
    pub data: Bytes,
    /// Blocks below this height may be removed.
    pub retain_height: Height,
}

impl Commit {
    /// Whether every height in the message is one that the wire can carry.
    pub open spec fn is_valid(self) -> bool {
        self.retain_height.is_valid()
    }

    /// The wire record of the message.
    pub open spec fn encoded(self) -> wire::ResponseCommit {
        wire::ResponseCommit {
            data: self.data,
            retain_height: self.retain_height.encoded(),
        }
    }

    /// The message that a wire record stands for. A record with a negative
    /// retain height is malformed.
    pub open spec fn decoded(record: wire::ResponseCommit) -> Result<Commit, DecodeError> {
        if let Err(error) = Height::decoded(record.retain_height) {
            Err(error)
        } else {
            Ok(Commit {
                data: record.data,
                retain_height: Height::decoded(record.retain_height).unwrap(),
            })
        }
    }

    /// A message with valid heights survives the wire: decoding its record gives
    /// the message back.
    pub proof fn lemma_round_trip(self)
        requires
            self.is_valid(),
        ensures
            Commit::decoded(self.encoded()) == Ok::<Commit, DecodeError>(self),
    {
        crate::block::height::lemma_height_round_trip(self.retain_height);
    }
}

impl From<Commit> for wire::ResponseCommit {
    /// Encodes: the wire record of the message.
    fn from(commit: Commit) -> (record: Self)
        ensures
            record == commit.encoded(),
            Commit::decoded(record) == Ok::<Commit, DecodeError>(commit),
    {
        wire::ResponseCommit {
            data: commit.data,
            retain_height: i64::from(commit.retain_height),
        }
    }
}

impl FromSpecImpl<Commit> for wire::ResponseCommit {
    open spec fn obeys_from_spec() -> bool {
        true
    }

    open spec fn from_spec(commit: Commit) -> Self {
        commit.encoded()
    }
}

impl TryFrom<wire::ResponseCommit> for Commit {
    type Error = DecodeError;

    /// Decodes: the message that the record stands for, or the first
    /// reason why it stands for none.
    fn try_from(record: wire::ResponseCommit) -> (decoded: Result<Self, DecodeError>)
        ensures
            decoded == Commit::decoded(record),
            decoded is Ok <==> record.retain_height >= 0,
    {
        let retain_height = match Height::try_from(record.retain_height) {
            Ok(retain_height) => retain_height,
            Err(error) => return Err(error),
        };
        Ok(Commit { data: record.data, retain_height })
    }
}

impl TryFromSpecImpl<wire::ResponseCommit> for Commit {
    open spec fn obeys_try_from_spec() -> bool {
        true
    }

    open spec fn try_from_spec(record: wire::ResponseCommit) -> Result<Self, DecodeError> {
        Commit::decoded(record)
    }
}

} // verus!
