//! The transaction delivery request.

use vstd::prelude::*;
use vstd::std_specs::convert::{FromSpecImpl, TryFromSpecImpl};
use bytes::Bytes;
use crate::error::DecodeError;
use crate::wire;

verus! {

/// Execute a transaction against the application state.
#[derive(Clone, Debug, PartialEq, Eq)]
pub struct DeliverTx {
    /// The bytes of the transaction to execute.
    pub tx: Bytes,
}

impl DeliverTx {
    /// The wire record of the message.
    pub open spec fn encoded(self) -> wire::RequestDeliverTx {
        wire::RequestDeliverTx { tx: self.tx }
    }

    /// The message that a wire record stands for. Every record stands for one.
    pub open spec fn decoded(record: wire::RequestDeliverTx) -> Result<DeliverTx, DecodeError> {
        Ok(DeliverTx { tx: record.tx })
    }

    /// A message survives the wire: decoding the record of a message gives the
    /// message back.
    pub proof fn lemma_round_trip(self)
        ensures
            DeliverTx::decoded(self.encoded()) == Ok::<DeliverTx, DecodeError>(self),
    {
    }
}

impl From<DeliverTx> for wire::RequestDeliverTx {
    /// Encodes: the wire record of the message.
    fn from(deliver_tx: DeliverTx) -> (record: Self)
        ensures
            record == deliver_tx.encoded(),
            DeliverTx::decoded(record) == Ok::<DeliverTx, DecodeError>(deliver_tx),
    {
        wire::RequestDeliverTx { tx: deliver_tx.tx }
    }
}

impl FromSpecImpl<DeliverTx> for wire::RequestDeliverTx {
    open spec fn obeys_from_spec() -> bool {
        true
    }

    open spec fn from_spec(deliver_tx: DeliverTx) -> Self {
        deliver_tx.encoded()
    }
}

impl TryFrom<wire::RequestDeliverTx> for DeliverTx {
    type Error = DecodeError;

    /// Decodes: the message that the record stands for, or the first
    /// reason why it stands for none.
    fn try_from(record: wire::RequestDeliverTx) -> (decoded: Result<Self, DecodeError>)
        ensures
            decoded == DeliverTx::decoded(record),
            decoded is Ok,
    {
        Ok(DeliverTx { tx: record.tx })
    }
}

impl TryFromSpecImpl<wire::RequestDeliverTx> for DeliverTx {
    open spec fn obeys_try_from_spec() -> bool {
        true
    }

    open spec fn try_from_spec(record: wire::RequestDeliverTx) -> Result<Self, DecodeError> {
        DeliverTx::decoded(record)
    }
}

} // verus!
