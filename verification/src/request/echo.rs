//! The echo request.

use vstd::prelude::*;
use vstd::std_specs::convert::{FromSpecImpl, TryFromSpecImpl};
use crate::error::DecodeError;
use crate::wire;

verus! {

/// Echoes a string to test an ABCI implementation.
#[derive(Clone, Debug, PartialEq, Eq)]
pub struct Echo {
    /// The message to send back.
    pub message: String,
}

impl Echo {
    /// The wire record of the message.
    pub open spec fn encoded(self) -> wire::RequestEcho {
        wire::RequestEcho { message: self.message }
    }

    /// The message that a wire record stands for. Every record stands for one.
    pub open spec fn decoded(record: wire::RequestEcho) -> Result<Echo, DecodeError> {
        Ok(Echo { message: record.message })
    }

    /// A message survives the wire: decoding the record of a message gives the
    /// message back.
    pub proof fn lemma_round_trip(self)
        ensures
            Echo::decoded(self.encoded()) == Ok::<Echo, DecodeError>(self),
    {
    }
}

impl From<Echo> for wire::RequestEcho {
    /// Encodes: the wire record of the message.
    fn from(echo: Echo) -> (record: Self)
        ensures
            record == echo.encoded(),
            Echo::decoded(record) == Ok::<Echo, DecodeError>(echo),
    {
        wire::RequestEcho { message: echo.message }
    }
}

impl FromSpecImpl<Echo> for wire::RequestEcho {
    open spec fn obeys_from_spec() -> bool {
        true
    }

    open spec fn from_spec(echo: Echo) -> Self {
        echo.encoded()
    }
}

impl TryFrom<wire::RequestEcho> for Echo {
    type Error = DecodeError;

    /// Decodes: the message that the record stands for, or the first
    /// reason why it stands for none.
    fn try_from(record: wire::RequestEcho) -> (decoded: Result<Self, DecodeError>)
        ensures
            decoded == Echo::decoded(record),
            decoded is Ok,
    {
        Ok(Echo { message: record.message })
    }
}

impl TryFromSpecImpl<wire::RequestEcho> for Echo {
    open spec fn obeys_try_from_spec() -> bool {
        true
    }

    open spec fn try_from_spec(record: wire::RequestEcho) -> Result<Self, DecodeError> {
        Echo::decoded(record)
    }
}

} // verus!
