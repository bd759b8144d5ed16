//! The chain initialization response.

use vstd::prelude::*;
use vstd::std_specs::convert::{FromSpecImpl, TryFromSpecImpl};
use bytes::Bytes;
use crate::error::DecodeError;
use crate::types::{ConsensusParams, ValidatorUpdate};
use crate::wire;

verus! {

/// Returned on genesis after initializing chain state.
#[derive(Clone, Debug, PartialEq, Eq)]
pub struct InitChain {
    /// Initial consensus-critical parameters, where the application
    /// replaces those of the request.
    pub consensus_params: Option<ConsensusParams>,
    /// Initial validator set, where the application replaces that of the
    /// request. Empty to keep it.
    pub validators: Vec<ValidatorUpdate>,
    /// Initial application hash.
    pub app_hash: Bytes,
}

impl InitChain {
    /// The wire record of the message.
    pub open spec fn encoded(self) -> wire::ResponseInitChain {
        wire::ResponseInitChain {
            consensus_params: self.consensus_params,
            validators: self.validators,
            app_hash: self.app_hash,
        }
    }

    /// The message that a wire record stands for. Every record stands for one.
    pub open spec fn decoded(record: wire::ResponseInitChain) -> Result<InitChain, DecodeError> {
        Ok(InitChain {
            consensus_params: record.consensus_params,
            validators: record.validators,
            app_hash: record.app_hash,
        })
    }

    /// A message survives the wire: decoding the record of a message gives the
    /// message back.
    pub proof fn lemma_round_trip(self)
        ensures
            InitChain::decoded(self.encoded()) == Ok::<InitChain, DecodeError>(self),
    {
    }
}

impl From<InitChain> for wire::ResponseInitChain {
    /// Encodes: the wire record of the message.
    fn from(init_chain: InitChain) -> (record: Self)
        ensures
            record == init_chain.encoded(),
            InitChain::decoded(record) == Ok::<InitChain, DecodeError>(init_chain),
    {
        wire::ResponseInitChain {
            consensus_params: init_chain.consensus_params,
            validators: init_chain.validators,
            app_hash: init_chain.app_hash,
        }
    }
}

impl FromSpecImpl<InitChain> for wire::ResponseInitChain {
    open spec fn obeys_from_spec() -> bool {
        true
    }

    open spec fn from_spec(init_chain: InitChain) -> Self {
        init_chain.encoded()
    }
}

impl TryFrom<wire::ResponseInitChain> for InitChain {
    type Error = DecodeError;

    /// Decodes: the message that the record stands for, or the first
    /// reason why it stands for none.
    fn try_from(record: wire::ResponseInitChain) -> (decoded: Result<Self, DecodeError>)
        ensures
            decoded == InitChain::decoded(record),
            decoded is Ok,
    {
        Ok(InitChain {
            consensus_params: record.consensus_params,
            validators: record.validators,
            app_hash: record.app_hash,
        })
    }
}

impl TryFromSpecImpl<wire::ResponseInitChain> for InitChain {
    open spec fn obeys_try_from_spec() -> bool {
        true
    }

    open spec fn try_from_spec(record: wire::ResponseInitChain) -> Result<Self, DecodeError> {
        InitChain::decoded(record)
    }
}

} // verus!
