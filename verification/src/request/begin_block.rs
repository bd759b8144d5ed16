//! The block beginning request.

use vstd::prelude::*;
use vstd::std_specs::convert::{FromSpecImpl, TryFromSpecImpl};
use bytes::Bytes;
use crate::error::DecodeError;
use crate::types::{Evidence, Header, LastCommitInfo};
use crate::wire;

verus! {

/// Signals the beginning of a new block.
///
/// Called prior to any `DeliverTx`. The header holds the height, the time
/// and more: it is the header of the block itself.
#[derive(Clone, Debug, PartialEq, Eq)]
pub struct BeginBlock {
    /// The block's hash.
    pub hash: Bytes,
    /// The block header.
    pub header: Header,
    /// Which validators signed the last block, and in which round.
    pub last_commit_info: LastCommitInfo,
    /// Evidence of validators that acted maliciously.
    pub byzantine_validators: Vec<Evidence>,
}

impl BeginBlock {
    /// The wire record of the message.
    pub open spec fn encoded(self) -> wire::RequestBeginBlock {
        wire::RequestBeginBlock {
            hash: self.hash,
            header: Some(self.header),
            last_commit_info: Some(self.last_commit_info),
            byzantine_validators: self.byzantine_validators,
        }
    }

    /// The message that a wire record stands for. A record without a header or
    /// without commit information lacks a nested field; the header is looked
    /// for first.
    pub open spec fn decoded(record: wire::RequestBeginBlock) -> Result<BeginBlock, DecodeError> {
        if record.header is None {
            Err(DecodeError::MissingNestedField)
        } else if record.last_commit_info is None {
            Err(DecodeError::MissingNestedField)
        } else {
            Ok(BeginBlock {
                hash: record.hash,
                header: record.header.unwrap(),
                last_commit_info: record.last_commit_info.unwrap(),
                byzantine_validators: record.byzantine_validators,
            })
        }
    }

    /// A message survives the wire: decoding the record of a message gives the
    /// message back.
    pub proof fn lemma_round_trip(self)
        ensures
            BeginBlock::decoded(self.encoded()) == Ok::<BeginBlock, DecodeError>(self),
    {
    }
}

impl From<BeginBlock> for wire::RequestBeginBlock {
    /// Encodes: the wire record of the message.
    fn from(begin_block: BeginBlock) -> (record: Self)
        ensures
            record == begin_block.encoded(),
            BeginBlock::decoded(record) == Ok::<BeginBlock, DecodeError>(begin_block),
    {
        wire::RequestBeginBlock {
            hash: begin_block.hash,
            header: Some(begin_block.header),
            last_commit_info: Some(begin_block.last_commit_info),
            byzantine_validators: begin_block.byzantine_validators,
        }
    }
}

impl FromSpecImpl<BeginBlock> for wire::RequestBeginBlock {
    open spec fn obeys_from_spec() -> bool {
        true
    }

    open spec fn from_spec(begin_block: BeginBlock) -> Self {
        begin_block.encoded()
    }
}

impl TryFrom<wire::RequestBeginBlock> for BeginBlock {
    type Error = DecodeError;

    /// Decodes: the message that the record stands for, or the first
    /// reason why it stands for none.
    fn try_from(record: wire::RequestBeginBlock) -> (decoded: Result<Self, DecodeError>)
        ensures
            decoded == BeginBlock::decoded(record),
            decoded is Ok <==> record.header is Some && record.last_commit_info is Some,
    {
        let header = match record.header {
            Some(header) => header,
            None => return Err(DecodeError::MissingNestedField),
        };
        let last_commit_info = match record.last_commit_info {
            Some(last_commit_info) => last_commit_info,
            None => return Err(DecodeError::MissingNestedField),
        };
        Ok(BeginBlock {
            hash: record.hash,
            header,
            last_commit_info,
            byzantine_validators: record.byzantine_validators,
        })
    }
}

impl TryFromSpecImpl<wire::RequestBeginBlock> for BeginBlock {
    open spec fn obeys_try_from_spec() -> bool {
        true
    }

    open spec fn try_from_spec(record: wire::RequestBeginBlock) -> Result<Self, DecodeError> {
        BeginBlock::decoded(record)
    }
}

} // verus!
