//! The transaction check response.

use vstd::prelude::*;
use vstd::std_specs::convert::{FromSpecImpl, TryFromSpecImpl};
use bytes::Bytes;
use crate::error::DecodeError;
use crate::types::Event;
use crate::wire;

verus! {

/// Returns the result of checking a transaction for mempool inclusion.
#[derive(Clone, Debug, PartialEq, Eq)]
pub struct CheckTx {
    /// The response code. Zero means success.
    pub code: u32,
    /// Result bytes, if any.
    pub data: Bytes,
    /// The output of the application's logger. May be non-deterministic.
    pub log: String,
    /// Additional information. May be non-deterministic.
    pub info: String,
    /// Amount of gas requested for the transaction.
    pub gas_wanted: i64,
    /// Amount of gas consumed by the transaction.
    pub gas_used: i64,
    /// Events that occurred while handling the transaction.
    pub events: Vec<Event>,
    /// The namespace for the `code`.
    pub codespace: String,
    /// The sender of the transaction.
    pub sender: String,
    /// The priority of the transaction in the mempool.
    pub priority: i64,
    /// Why the mempool refused the transaction. The engine fills it in;
    /// an application leaves it empty.
    pub mempool_error: String,
}

impl CheckTx {
    /// The wire record of the message.
    pub open spec fn encoded(self) -> wire::ResponseCheckTx {
        wire::ResponseCheckTx {
            code: self.code,
            data: self.data,
            log: self.log,
            info: self.info,
            gas_wanted: self.gas_wanted,
            gas_used: self.gas_used,
            events: self.events,
            codespace: self.codespace,
            sender: self.sender,
            priority: self.priority,
            mempool_error: self.mempool_error,
        }
    }

    /// The message that a wire record stands for. Every record stands for one.
    pub open spec fn decoded(record: wire::ResponseCheckTx) -> Result<CheckTx, DecodeError> {
        Ok(CheckTx {
            code: record.code,
            data: record.data,
            log: record.log,
            info: record.info,
            gas_wanted: record.gas_wanted,
            gas_used: record.gas_used,
            events: record.events,
            codespace: record.codespace,
            sender: record.sender,
            priority: record.priority,
            mempool_error: record.mempool_error,
        })
    }

    /// A message survives the wire: decoding the record of a message gives the
    /// message back.
    pub proof fn lemma_round_trip(self)
        ensures
            CheckTx::decoded(self.encoded()) == Ok::<CheckTx, DecodeError>(self),
    {
    }
}

impl From<CheckTx> for wire::ResponseCheckTx {
    /// Encodes: the wire record of the message.
    fn from(check_tx: CheckTx) -> (record: Self)
        ensures
            record == check_tx.encoded(),
            CheckTx::decoded(record) == Ok::<CheckTx, DecodeError>(check_tx),
    {
        wire::ResponseCheckTx {
            code: check_tx.code,
            data: check_tx.data,
            log: check_tx.log,
            info: check_tx.info,
            gas_wanted: check_tx.gas_wanted,
            gas_used: check_tx.gas_used,
            events: check_tx.events,
            codespace: check_tx.codespace,
            sender: check_tx.sender,
            priority: check_tx.priority,
            mempool_error: check_tx.mempool_error,
        }
    }
}

impl FromSpecImpl<CheckTx> for wire::ResponseCheckTx {
    open spec fn obeys_from_spec() -> bool {
        true
    }

    open spec fn from_spec(check_tx: CheckTx) -> Self {
        check_tx.encoded()
    }
}

impl TryFrom<wire::ResponseCheckTx> for CheckTx {
    type Error = DecodeError;

    /// Decodes: the message that the record stands for, or the first
    /// reason why it stands for none.
    fn try_from(record: wire::ResponseCheckTx) -> (decoded: Result<Self, DecodeError>)
        ensures
            decoded == CheckTx::decoded(record),
            decoded is Ok,
    {
        Ok(CheckTx {
            code: record.code,
            data: record.data,
            log: record.log,
            info: record.info,
            gas_wanted: record.gas_wanted,
            gas_used: record.gas_used,
            events: record.events,
            codespace: record.codespace,
            sender: record.sender,
            priority: record.priority,
            mempool_error: record.mempool_error,
        })
    }
}

impl TryFromSpecImpl<wire::ResponseCheckTx> for CheckTx {
    open spec fn obeys_try_from_spec() -> bool {
        true
    }

    open spec fn try_from_spec(record: wire::ResponseCheckTx) -> Result<Self, DecodeError> {
        CheckTx::decoded(record)
    }
}

} // verus!
