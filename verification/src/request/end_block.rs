//! The block end request.

use vstd::prelude::*;
use vstd::std_specs::convert::{FromSpecImpl, TryFromSpecImpl};
use crate::error::DecodeError;
use crate::wire;

verus! {

/// Signals the end of a block.
///
/// Called after all transactions, and prior to each `Commit`.
#[derive(Clone, Debug, PartialEq, Eq)]
pub struct EndBlock {
    /// The height of the block just executed.
    pub height: i64,
}

impl EndBlock {
    /// The wire record of the message.
    pub open spec fn encoded(self) -> wire::RequestEndBlock {
        wire::RequestEndBlock { height: self.height }
    }

    /// The message that a wire record stands for. Every record stands for one.
    pub open spec fn decoded(record: wire::RequestEndBlock) -> Result<EndBlock, DecodeError> {
        Ok(EndBlock { height: record.height })
    }

    /// A message survives the wire: decoding the record of a message gives the
    /// message back.
    pub proof fn lemma_round_trip(self)
        ensures
            EndBlock::decoded(self.encoded()) == Ok::<EndBlock, DecodeError>(self),
    {
    }
}

impl From<EndBlock> for wire::RequestEndBlock {
    /// Encodes: the wire record of the message.
    fn from(end_block: EndBlock) -> (record: Self)
        ensures
            record == end_block.encoded(),
            EndBlock::decoded(record) == Ok::<EndBlock, DecodeError>(end_block),
    {
        wire::RequestEndBlock { height: end_block.height }
    }
}

impl FromSpecImpl<EndBlock> for wire::RequestEndBlock {
    open spec fn obeys_from_spec() -> bool {
        true
    }

    open spec fn from_spec(end_block: EndBlock) -> Self {
        end_block.encoded()
    }
}

impl TryFrom<wire::RequestEndBlock> for EndBlock {
    type Error = DecodeError;

    /// Decodes: the message that the record stands for, or the first
    /// reason why it stands for none.
    fn try_from(record: wire::RequestEndBlock) -> (decoded: Result<Self, DecodeError>)
        ensures
            decoded == EndBlock::decoded(record),
            decoded is Ok,
    {
        Ok(EndBlock { height: record.height })
    }
}

impl TryFromSpecImpl<wire::RequestEndBlock> for EndBlock {
    open spec fn obeys_try_from_spec() -> bool {
        true
    }

    open spec fn try_from_spec(record: wire::RequestEndBlock) -> Result<Self, DecodeError> {
        EndBlock::decoded(record)
    }
}

} // verus!
