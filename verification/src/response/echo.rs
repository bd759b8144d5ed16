//! The echo response.

use vstd::prelude::*;
use vstd::std_specs::convert::{FromSpecImpl, TryFromSpecImpl};
use crate::error::DecodeError;
use crate::wire;

verus! {

/// Returns a string sent in the request, to test an ABCI implementation.
#[derive(Clone, Debug, PartialEq, Eq, Default)]
pub struct Echo {
    /// The message sent in the request.
    pub message: String,
}

impl Echo {
    /// The wire record of the message.
    pub open spec fn encoded(self) -> wire::ResponseEcho {
        wire::ResponseEcho { message: self.message }
    }

    /// The message that a wire record stands for. Every record stands for one.
    pub open spec fn decoded(record: wire::ResponseEcho) -> Result<Echo, DecodeError> {
        Ok(Echo { message: record.message })
    }

    /// A message survives the wire: decoding the record of a message gives the
    /// message back.
    pub proof fn lemma_round_trip(self)
        ensures
            Echo::decoded(self.encoded()) == Ok::<Echo, DecodeError>(self),
    {
    }
}

impl From<Echo> for wire::ResponseEcho {
    /// Encodes: the wire record of the message.
    fn from(echo: Echo) -> (record: Self)
        ensures
            record == echo.encoded(),
            Echo::decoded(record) == Ok::<Echo, DecodeError>(echo),
    {
        wire::ResponseEcho { message: echo.message }
    }
}

impl FromSpecImpl<Echo> for wire::ResponseEcho {
    open spec fn obeys_from_spec() -> bool {
        true
    }

    open spec fn from_spec(echo: Echo) -> Self {
        echo.encoded()
    }
}

impl TryFrom<wire::ResponseEcho> for Echo {
    type Error = DecodeError;

    /// Decodes: the message that the record stands for, or the first
    /// reason why it stands for none.
    fn try_from(record: wire::ResponseEcho) -> (decoded: Result<Self, DecodeError>)
        ensures
            decoded == Echo::decoded(record),
            decoded is Ok,
    {
        Ok(Echo { message: record.message })
    }
}

impl TryFromSpecImpl<wire::ResponseEcho> for Echo {
    open spec fn obeys_try_from_spec() -> bool {
        true
    }

    open spec fn try_from_spec(record: wire::ResponseEcho) -> Result<Self, DecodeError> {
        Echo::decoded(record)
    }
}

} // verus!
