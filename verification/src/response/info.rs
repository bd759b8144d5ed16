//! The info response.

use vstd::prelude::*;
use vstd::std_specs::convert::{FromSpecImpl, TryFromSpecImpl};
use bytes::Bytes;
use crate::block::Height;
use crate::error::DecodeError;
use crate::wire;

verus! {

/// Returns information about the application state.
#[derive(Clone, Debug, PartialEq, Eq)]
pub struct Info {
    /// Some arbitrary information.
    pub data: String,
    /// The application software semantic version.
    pub version: String,
    /// The application protocol version.
    pub app_version: u64,
    /// The latest block for which the app has called `Commit`.
    pub last_block_height: Height,
    /// The latest result of `Commit`.
    pub last_block_app_hash: Bytes,
}

impl Info {
    /// Whether every height in the message is one that the wire can carry.
    pub open spec fn is_valid(self) -> bool {
        self.last_block_height.is_valid()
    }

    /// The wire record of the message.
    pub open spec fn encoded(self) -> wire::ResponseInfo {
        wire::ResponseInfo {
            data: self.data,
            version: self.version,
            app_version: self.app_version,
            last_block_height: self.last_block_height.encoded(),
            last_block_app_hash: self.last_block_app_hash,
        }
    }

    /// The message that a wire record stands for. A record with a negative
    /// block height is malformed.
    pub open spec fn decoded(record: wire::ResponseInfo) -> Result<Info, DecodeError> {
        if let Err(error) = Height::decoded(record.last_block_height) {
            Err(error)
        } else {
            Ok(Info {
                data: record.data,
                version: record.version,
                app_version: record.app_version,
                last_block_height: Height::decoded(record.last_block_height).unwrap(),
                last_block_app_hash: record.last_block_app_hash,
            })
        }
    }

    /// A message with valid heights survives the wire: decoding its record gives
    /// the message back.
    pub proof fn lemma_round_trip(self)
        requires
            self.is_valid(),
        ensures
            Info::decoded(self.encoded()) == Ok::<Info, DecodeError>(self),
    {
        crate::block::height::lemma_height_round_trip(self.last_block_height);
    }
}

impl From<Info> for wire::ResponseInfo {
    /// Encodes: the wire record of the message.
    fn from(info: Info) -> (record: Self)
        ensures
            record == info.encoded(),
            Info::decoded(record) == Ok::<Info, DecodeError>(info),
    {
        wire::ResponseInfo {
            data: info.data,
            version: info.version,
            app_version: info.app_version,
            last_block_height: i64::from(info.last_block_height),
            last_block_app_hash: info.last_block_app_hash,
        }
    }
}

impl FromSpecImpl<Info> for wire::ResponseInfo {
    open spec fn obeys_from_spec() -> bool {
        true
    }

    open spec fn from_spec(info: Info) -> Self {
        info.encoded()
    }
}

impl TryFrom<wire::ResponseInfo> for Info {
    type Error = DecodeError;

    /// Decodes: the message that the record stands for, or the first
    /// reason why it stands for none.
    fn try_from(record: wire::ResponseInfo) -> (decoded: Result<Self, DecodeError>)
        ensures
            decoded == Info::decoded(record),
            decoded is Ok <==> record.last_block_height >= 0,
    {
        let last_block_height = match Height::try_from(record.last_block_height) {
            Ok(last_block_height) => last_block_height,
            Err(error) => return Err(error),
        };
        Ok(Info {
            data: record.data,
            version: record.version,
            app_version: record.app_version,
            last_block_height,
            last_block_app_hash: record.last_block_app_hash,
        })
    }
}

impl TryFromSpecImpl<wire::ResponseInfo> for Info {
    open spec fn obeys_try_from_spec() -> bool {
        true
    }

    open spec fn try_from_spec(record: wire::ResponseInfo) -> Result<Self, DecodeError> {
        Info::decoded(record)
    }
}

} // verus!
