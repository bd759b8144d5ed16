//! The chain initialization request.

use vstd::prelude::*;
use vstd::std_specs::convert::{FromSpecImpl, TryFromSpecImpl};
use bytes::Bytes;
use crate::block::Height;
use crate::error::DecodeError;
use crate::types::{ConsensusParams, Timestamp, ValidatorUpdate};
use crate::wire;

verus! {

/// Called on genesis to initialize chain state.
#[derive(Clone, Debug, PartialEq, Eq)]
pub struct InitChain {
    /// The genesis time.
    pub time: Timestamp,
    /// The identifier of the chain.
    pub chain_id: String,
    /// The initial consensus parameters.
    pub consensus_params: ConsensusParams,
    /// The initial validator set.
    pub validators: Vec<ValidatorUpdate>,
    /// The serialized initial application state.
    pub app_state_bytes: Bytes,
    /// The height of the first block of the chain.
    pub initial_height: Height,
}

impl InitChain {
    /// Whether every height in the message is one that the wire can carry.
    pub open spec fn is_valid(self) -> bool {
        self.initial_height.is_valid()
    }

    /// The wire record of the message.
    pub open spec fn encoded(self) -> wire::RequestInitChain {
        wire::RequestInitChain {
            time: Some(self.time),
            chain_id: self.chain_id,
            consensus_params: Some(self.consensus_params),
            validators: self.validators,
            app_state_bytes: self.app_state_bytes,
            initial_height: self.initial_height.encoded(),
        }
    }

    /// The message that a wire record stands for. A record without a genesis
    /// time or without consensus parameters lacks a nested field; one with a
    /// negative initial height is malformed. The fields are checked in this
    /// order and the first failure is reported.
    pub open spec fn decoded(record: wire::RequestInitChain) -> Result<InitChain, DecodeError> {
        if record.time is None {
            Err(DecodeError::MissingNestedField)
        } else if record.consensus_params is None {
            Err(DecodeError::MissingNestedField)
        } else if let Err(error) = Height::decoded(record.initial_height) {
            Err(error)
        } else {
            Ok(InitChain {
                time: record.time.unwrap(),
                chain_id: record.chain_id,
                consensus_params: record.consensus_params.unwrap(),
                validators: record.validators,
                app_state_bytes: record.app_state_bytes,
                initial_height: Height::decoded(record.initial_height).unwrap(),
            })
        }
    }

    /// A message with valid heights survives the wire: decoding its record gives
    /// the message back.
    pub proof fn lemma_round_trip(self)
        requires
            self.is_valid(),
        ensures
            InitChain::decoded(self.encoded()) == Ok::<InitChain, DecodeError>(self),
    {
        crate::block::height::lemma_height_round_trip(self.initial_height);
    }
}

impl From<InitChain> for wire::RequestInitChain {
    /// Encodes: the wire record of the message.
    fn from(init_chain: InitChain) -> (record: Self)
        ensures
            record == init_chain.encoded(),
            InitChain::decoded(record) == Ok::<InitChain, DecodeError>(init_chain),
    {
        wire::RequestInitChain {
            time: Some(init_chain.time),
            chain_id: init_chain.chain_id,
            consensus_params: Some(init_chain.consensus_params),
            validators: init_chain.validators,
            app_state_bytes: init_chain.app_state_bytes,
            initial_height: i64::from(init_chain.initial_height),
        }
    }
}

impl FromSpecImpl<InitChain> for wire::RequestInitChain {
    open spec fn obeys_from_spec() -> bool {
        true
    }

    open spec fn from_spec(init_chain: InitChain) -> Self {
        init_chain.encoded()
    }
}

impl TryFrom<wire::RequestInitChain> for InitChain {
    type Error = DecodeError;

    /// Decodes: the message that the record stands for, or the first
    /// reason why it stands for none.
    fn try_from(record: wire::RequestInitChain) -> (decoded: Result<Self, DecodeError>)
        ensures
            decoded == InitChain::decoded(record),
            decoded is Ok <==> record.time is Some
                && record.consensus_params is Some
                && record.initial_height >= 0,
    {
        let time = match record.time {
            Some(time) => time,
            None => return Err(DecodeError::MissingNestedField),
        };
        let consensus_params = match record.consensus_params {
            Some(consensus_params) => consensus_params,
            None => return Err(DecodeError::MissingNestedField),
        };
        let initial_height = match Height::try_from(record.initial_height) {
            Ok(initial_height) => initial_height,
            Err(error) => return Err(error),
        };
        Ok(InitChain {
            time,
            chain_id: record.chain_id,
            consensus_params,
            validators: record.validators,
            app_state_bytes: record.app_state_bytes,
            initial_height,
        })
    }
}

impl TryFromSpecImpl<wire::RequestInitChain> for InitChain {
    open spec fn obeys_try_from_spec() -> bool {
        true
    }

    open spec fn try_from_spec(record: wire::RequestInitChain) -> Result<Self, DecodeError> {
        InitChain::decoded(record)
    }
}

} // verus!
