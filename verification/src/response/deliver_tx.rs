//! The transaction delivery response.

use vstd::prelude::*;
use vstd::std_specs::convert::{FromSpecImpl, TryFromSpecImpl};
use bytes::Bytes;
use crate::error::DecodeError;
use crate::types::Event;
use crate::wire;

verus! {

/// Returns events that occurred while executing a transaction against the
/// application state.
#[derive(Clone, Debug, PartialEq, Eq)]
pub struct DeliverTx {
    /// The response code. Zero means success.
    pub code: u32,
    /// Result bytes, if any.
    pub data: Bytes,
    /// The output of the application's logger. May be non-deterministic.
    pub log: String,
    /// Additional information. May be non-deterministic.
    pub info: String,
    /// Amount of gas requested for the transaction.
    pub gas_wanted: i64,
    /// Amount of gas consumed by the transaction.
    pub gas_used: i64,
    /// Events that occurred while handling the transaction.
    pub events: Vec<Event>,
    /// The namespace for the `code`.
    pub codespace: String,
}

impl DeliverTx {
    /// The wire record of the message.
    pub open spec fn encoded(self) -> wire::ResponseDeliverTx {
        wire::ResponseDeliverTx {
            code: self.code,
            data: self.data,
            log: self.log,
            info: self.info,
            gas_wanted: self.gas_wanted,
            gas_used: self.gas_used,
            events: self.events,
            codespace: self.codespace,
        }
    }

    /// The message that a wire record stands for. Every record stands for one.
    pub open spec fn decoded(record: wire::ResponseDeliverTx) -> Result<DeliverTx, DecodeError> {
        Ok(DeliverTx {
            code: record.code,
            data: record.data,
            log: record.log,
            info: record.info,
            gas_wanted: record.gas_wanted,
            gas_used: record.gas_used,
            events: record.events,
            codespace: record.codespace,
        })
    }

    /// A message survives the wire: decoding the record of a message gives the
    /// message back.
    pub proof fn lemma_round_trip(self)
        ensures
            DeliverTx::decoded(self.encoded()) == Ok::<DeliverTx, DecodeError>(self),
    {
    }
}

impl From<DeliverTx> for wire::ResponseDeliverTx {
    /// Encodes: the wire record of the message.
    fn from(deliver_tx: DeliverTx) -> (record: Self)
        ensures
            record == deliver_tx.encoded(),
            DeliverTx::decoded(record) == Ok::<DeliverTx, DecodeError>(deliver_tx),
    {
        wire::ResponseDeliverTx {
            code: deliver_tx.code,
            data: deliver_tx.data,
            log: deliver_tx.log,
            info: deliver_tx.info,
            gas_wanted: deliver_tx.gas_wanted,
            gas_used: deliver_tx.gas_used,
            events: deliver_tx.events,
            codespace: deliver_tx.codespace,
        }
    }
}

impl FromSpecImpl<DeliverTx> for wire::ResponseDeliverTx {
    open spec fn obeys_from_spec() -> bool {
        true
    }

    open spec fn from_spec(deliver_tx: DeliverTx) -> Self {
        deliver_tx.encoded()
    }
}

impl TryFrom<wire::ResponseDeliverTx> for DeliverTx {
    type Error = DecodeError;

    /// Decodes: the message that the record stands for, or the first
    /// reason why it stands for none.
    fn try_from(record: wire::ResponseDeliverTx) -> (decoded: Result<Self, DecodeError>)
        ensures
            decoded == DeliverTx::decoded(record),
            decoded is Ok,
    {
        Ok(DeliverTx {
            code: record.code,
            data: record.data,
            log: record.log,
            info: record.info,
            gas_wanted: record.gas_wanted,
            gas_used: record.gas_used,
            events: record.events,
            codespace: record.codespace,
        })
    }
}

impl TryFromSpecImpl<wire::ResponseDeliverTx> for DeliverTx {
    open spec fn obeys_try_from_spec() -> bool {
        true
    }

    open spec fn try_from_spec(record: wire::ResponseDeliverTx) -> Result<Self, DecodeError> {
        DeliverTx::decoded(record)
    }
}

} // verus!
