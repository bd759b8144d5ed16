//! The exception response.

use vstd::prelude::*;
use vstd::std_specs::convert::{FromSpecImpl, TryFromSpecImpl};
use crate::error::DecodeError;
use crate::wire;

verus! {

/// Reports a fault of the application.
///
/// A fault is not deterministic and belongs to no method kind. The codec
/// hands it on as it is; what it means for the node is for the caller to
/// decide.
#[derive(Clone, Debug, PartialEq, Eq)]
pub struct Exception {
    /// The fault, in words.
    pub error: String,
}

impl Exception {
    /// The wire record of the message.
    pub open spec fn encoded(self) -> wire::ResponseException {
        wire::ResponseException { error: self.error }
    }

    /// The message that a wire record stands for. Every record stands for one.
    pub open spec fn decoded(record: wire::ResponseException) -> Result<Exception, DecodeError> {
        Ok(Exception { error: record.error })
    }

    /// A message survives the wire: decoding the record of a message gives the
    /// message back.
    pub proof fn lemma_round_trip(self)
        ensures
            Exception::decoded(self.encoded()) == Ok::<Exception, DecodeError>(self),
    {
    }
}

impl From<Exception> for wire::ResponseException {
    /// Encodes: the wire record of the message.
    fn from(exception: Exception) -> (record: Self)
        ensures
            record == exception.encoded(),
            Exception::decoded(record) == Ok::<Exception, DecodeError>(exception),
    {
        wire::ResponseException { error: exception.error }
    }
}

impl FromSpecImpl<Exception> for wire::ResponseException {
    open spec fn obeys_from_spec() -> bool {
        true
    }

    open spec fn from_spec(exception: Exception) -> Self {
        exception.encoded()
    }
}

impl TryFrom<wire::ResponseException> for Exception {
    type Error = DecodeError;

    /// Decodes: the message that the record stands for, or the first
    /// reason why it stands for none.
    fn try_from(record: wire::ResponseException) -> (decoded: Result<Self, DecodeError>)
        ensures
            decoded == Exception::decoded(record),
            decoded is Ok,
    {
        Ok(Exception { error: record.error })
    }
}

impl TryFromSpecImpl<wire::ResponseException> for Exception {
    open spec fn obeys_try_from_spec() -> bool {
        true
    }

    open spec fn try_from_spec(record: wire::ResponseException) -> Result<Self, DecodeError> {
        Exception::decoded(record)
    }
}

} // verus!
