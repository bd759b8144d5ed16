//! The block end response.

use vstd::prelude::*;
use vstd::std_specs::convert::{FromSpecImpl, TryFromSpecImpl};
use crate::error::DecodeError;
use crate::types::{ConsensusParams, Event, ValidatorUpdate};
use crate::wire;

verus! {

/// Returns validator updates that occur after the end of a block.
#[derive(Clone, Debug, PartialEq, Eq)]
pub struct EndBlock {
    /// Changes to the validator set, if any.
    ///
    /// Setting the voting power to 0 removes a validator.
    pub validator_updates: Vec<ValidatorUpdate>,
    /// Changes to consensus parameters, if any.
    pub consensus_param_updates: Option<ConsensusParams>,
    /// Events that occurred while ending the block.
    pub events: Vec<Event>,
}

impl EndBlock {
    /// The wire record of the message.
    pub open spec fn encoded(self) -> wire::ResponseEndBlock {
        wire::ResponseEndBlock {
            validator_updates: self.validator_updates,
            consensus_param_updates: self.consensus_param_updates,
            events: self.events,
        }
    }

    /// The message that a wire record stands for. Every record stands for one.
    pub open spec fn decoded(record: wire::ResponseEndBlock) -> Result<EndBlock, DecodeError> {
        Ok(EndBlock {
            validator_updates: record.validator_updates,
            consensus_param_updates: record.consensus_param_updates,
            events: record.events,
        })
    }

    /// A message survives the wire: decoding the record of a message gives the
    /// message back.
    pub proof fn lemma_round_trip(self)
        ensures
            EndBlock::decoded(self.encoded()) == Ok::<EndBlock, DecodeError>(self),
    {
    }
}

impl From<EndBlock> for wire::ResponseEndBlock {
    /// Encodes: the wire record of the message.
    fn from(end_block: EndBlock) -> (record: Self)
        ensures
            record == end_block.encoded(),
            EndBlock::decoded(record) == Ok::<EndBlock, DecodeError>(end_block),
    {
        wire::ResponseEndBlock {
            validator_updates: end_block.validator_updates,
            consensus_param_updates: end_block.consensus_param_updates,
            events: end_block.events,
        }
    }
}

impl FromSpecImpl<EndBlock> for wire::ResponseEndBlock {
    open spec fn obeys_from_spec() -> bool {
        true
    }

    open spec fn from_spec(end_block: EndBlock) -> Self {
        end_block.encoded()
    }
}

impl TryFrom<wire::ResponseEndBlock> for EndBlock {
    type Error = DecodeError;

    /// Decodes: the message that the record stands for, or the first
    /// reason why it stands for none.
    fn try_from(record: wire::ResponseEndBlock) -> (decoded: Result<Self, DecodeError>)
        ensures
            decoded == EndBlock::decoded(record),
            decoded is Ok,
    {
        Ok(EndBlock {
            validator_updates: record.validator_updates,
            consensus_param_updates: record.consensus_param_updates,
            events: record.events,
        })
    }
}

impl TryFromSpecImpl<wire::ResponseEndBlock> for EndBlock {
    open spec fn obeys_try_from_spec() -> bool {
        true
    }

    open spec fn try_from_spec(record: wire::ResponseEndBlock) -> Result<Self, DecodeError> {
        EndBlock::decoded(record)
    }
}

} // verus!
