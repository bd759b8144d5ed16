//! The info request.

use vstd::prelude::*;
use vstd::std_specs::convert::{FromSpecImpl, TryFromSpecImpl};
use crate::error::DecodeError;
use crate::wire;

verus! {

/// Requests information about the application state.
#[derive(Clone, Debug, PartialEq, Eq)]
pub struct Info {
    /// The semantic version of the engine software.
    pub version: String,
    /// The version of the block protocol.
    pub block_version: u64,
    /// The version of the peer-to-peer protocol.
    pub p2p_version: u64,
    /// The semantic version of the interface.
    pub abci_version: String,
}

impl Info {
    /// The wire record of the message.
    pub open spec fn encoded(self) -> wire::RequestInfo {
        wire::RequestInfo {
            version: self.version,
            block_version: self.block_version,
            p2p_version: self.p2p_version,
            abci_version: self.abci_version,
        }
    }

    /// The message that a wire record stands for. Every record stands for one.
    pub open spec fn decoded(record: wire::RequestInfo) -> Result<Info, DecodeError> {
        Ok(Info {
            version: record.version,
            block_version: record.block_version,
            p2p_version: record.p2p_version,
            abci_version: record.abci_version,
        })
    }

    /// A message survives the wire: decoding the record of a message gives the
    /// message back.
    pub proof fn lemma_round_trip(self)
        ensures
            Info::decoded(self.encoded()) == Ok::<Info, DecodeError>(self),
    {
    }
}

impl From<Info> for wire::RequestInfo {
    /// Encodes: the wire record of the message.
    fn from(info: Info) -> (record: Self)
        ensures
            record == info.encoded(),
            Info::decoded(record) == Ok::<Info, DecodeError>(info),
    {
        wire::RequestInfo {
            version: info.version,
            block_version: info.block_version,
            p2p_version: info.p2p_version,
            abci_version: info.abci_version,
        }
    }
}

impl FromSpecImpl<Info> for wire::RequestInfo {
    open spec fn obeys_from_spec() -> bool {
        true
    }

    open spec fn from_spec(info: Info) -> Self {
        info.encoded()
    }
}

impl TryFrom<wire::RequestInfo> for Info {
    type Error = DecodeError;

    /// Decodes: the message that the record stands for, or the first
    /// reason why it stands for none.
    fn try_from(record: wire::RequestInfo) -> (decoded: Result<Self, DecodeError>)
        ensures
            decoded == Info::decoded(record),
            decoded is Ok,
    {
        Ok(Info {
            version: record.version,
            block_version: record.block_version,
            p2p_version: record.p2p_version,
            abci_version: record.abci_version,
        })
    }
}

impl TryFromSpecImpl<wire::RequestInfo> for Info {
    open spec fn obeys_try_from_spec() -> bool {
        true
    }

    open spec fn try_from_spec(record: wire::RequestInfo) -> Result<Self, DecodeError> {
        Info::decoded(record)
    }
}

} // verus!
