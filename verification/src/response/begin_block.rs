//! The block beginning response.

use vstd::prelude::*;
use vstd::std_specs::convert::{FromSpecImpl, TryFromSpecImpl};
use crate::error::DecodeError;
use crate::types::Event;
use crate::wire;

verus! {

/// Returns events that occurred when beginning a new block.
#[derive(Clone, Debug, PartialEq, Eq, Default)]
pub struct BeginBlock {
    /// Events that occurred while beginning the block.
    pub events: Vec<Event>,
}

impl BeginBlock {
    /// The wire record of the message.
    pub open spec fn encoded(self) -> wire::ResponseBeginBlock {
        wire::ResponseBeginBlock { events: self.events }
    }

    /// The message that a wire record stands for. Every record stands for one.
    pub open spec fn decoded(record: wire::ResponseBeginBlock) -> Result<BeginBlock, DecodeError> {
        Ok(BeginBlock { events: record.events })
    }

    /// A message survives the wire: decoding the record of a message gives the
    /// message back.
    pub proof fn lemma_round_trip(self)
        ensures
            BeginBlock::decoded(self.encoded()) == Ok::<BeginBlock, DecodeError>(self),
    {
    }
}

impl From<BeginBlock> for wire::ResponseBeginBlock {
    /// Encodes: the wire record of the message.
    fn from(begin_block: BeginBlock) -> (record: Self)
        ensures
            record == begin_block.encoded(),
            BeginBlock::decoded(record) == Ok::<BeginBlock, DecodeError>(begin_block),
    {
        wire::ResponseBeginBlock { events: begin_block.events }
    }
}

impl FromSpecImpl<BeginBlock> for wire::ResponseBeginBlock {
    open spec fn obeys_from_spec() -> bool {
        true
    }

    open spec fn from_spec(begin_block: BeginBlock) -> Self {
        begin_block.encoded()
    }
}

impl TryFrom<wire::ResponseBeginBlock> for BeginBlock {
    type Error = DecodeError;

    /// Decodes: the message that the record stands for, or the first
    /// reason why it stands for none.
    fn try_from(record: wire::ResponseBeginBlock) -> (decoded: Result<Self, DecodeError>)
        ensures
            decoded == BeginBlock::decoded(record),
            decoded is Ok,
    {
        Ok(BeginBlock { events: record.events })
    }
}

impl TryFromSpecImpl<wire::ResponseBeginBlock> for BeginBlock {
    open spec fn obeys_try_from_spec() -> bool {
        true
    }

    open spec fn try_from_spec(record: wire::ResponseBeginBlock) -> Result<Self, DecodeError> {
        BeginBlock::decoded(record)
    }
}

} // verus!
